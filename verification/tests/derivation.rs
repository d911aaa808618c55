use rplugin::PluginError;
use rplugin::daydir_of_bucket;
use rplugin::split_daydir_dir;
use rplugin::split_daydir_dir_file;
use rplugin::store_dir;
use rplugin::store_path;

#[test]
fn file_split_derives_day_item_and_name() {
    let r = split_daydir_dir_file("/data/20240115-snap/report.txt").unwrap();
    assert_eq!(r.0, "20240115");
    assert_eq!(r.1, "20240115-snap");
    assert_eq!(r.2, "report.txt");
}

#[test]
fn file_split_ignores_repeated_and_trailing_separators() {
    let r = split_daydir_dir_file("//data//20240115-snap//report.txt//").unwrap();
    assert_eq!(r.0, "20240115");
    assert_eq!(r.1, "20240115-snap");
    assert_eq!(r.2, "report.txt");
}

#[test]
fn file_split_truncates_by_characters_not_bytes() {
    let r = split_daydir_dir_file("/x/âêîôû-20240115/rapport.txt").unwrap();
    assert_eq!(r.0, "âêîôû-20");
    assert_eq!(r.1, "âêîôû-20240115");
    assert_eq!(r.2, "rapport.txt");
}

#[test]
fn file_split_rejects_short_parent() {
    let r = split_daydir_dir_file("/data/short/file.txt");
    assert_eq!(r, Err(PluginError::ShortDayName));
}

#[test]
fn file_split_rejects_exactly_seven_character_parent() {
    let r = split_daydir_dir_file("/data/1234567/file.txt");
    assert_eq!(r, Err(PluginError::ShortDayName));
}

#[test]
fn file_split_accepts_exactly_eight_character_parent() {
    let r = split_daydir_dir_file("/data/12345678/file.txt").unwrap();
    assert_eq!(r.0, "12345678");
    assert_eq!(r.1, "12345678");
}

#[test]
fn file_split_rejects_missing_parent() {
    assert_eq!(
        split_daydir_dir_file("report.txt"),
        Err(PluginError::MissingDirName)
    );
    assert_eq!(
        split_daydir_dir_file("/report.txt"),
        Err(PluginError::MissingDirName)
    );
}

#[test]
fn file_split_rejects_empty_paths() {
    assert_eq!(split_daydir_dir_file(""), Err(PluginError::MissingFileName));
    assert_eq!(split_daydir_dir_file("/"), Err(PluginError::MissingFileName));
    assert_eq!(
        split_daydir_dir_file("///"),
        Err(PluginError::MissingFileName)
    );
}

#[test]
fn dir_split_derives_day_and_item() {
    let r = split_daydir_dir("/data/20240115/20240115-snap").unwrap();
    assert_eq!(r.0, "20240115");
    assert_eq!(r.1, "20240115-snap");
}

#[test]
fn dir_split_truncates_long_parent() {
    let r = split_daydir_dir("/data/20240115-full/items").unwrap();
    assert_eq!(r.0, "20240115");
    assert_eq!(r.1, "items");
}

#[test]
fn dir_split_rejects_short_parent() {
    assert_eq!(
        split_daydir_dir("/data/20240115-snap"),
        Err(PluginError::ShortDayName)
    );
}

#[test]
fn dir_split_rejects_single_component() {
    assert_eq!(
        split_daydir_dir("/20240115-snap"),
        Err(PluginError::MissingDirName)
    );
    assert_eq!(split_daydir_dir(""), Err(PluginError::MissingDirName));
}

#[test]
fn bucket_day_is_first_eight_characters() {
    assert_eq!(daydir_of_bucket("20240115-snap").unwrap(), "20240115");
    assert_eq!(daydir_of_bucket("20240115").unwrap(), "20240115");
}

#[test]
fn bucket_shorter_than_eight_is_rejected() {
    assert_eq!(daydir_of_bucket("short"), Err(PluginError::InvalidBucketName));
    assert_eq!(daydir_of_bucket("1234567"), Err(PluginError::InvalidBucketName));
}

#[test]
fn store_paths_join_with_separators() {
    assert_eq!(
        store_path("/tmp/rplugin", "20240115", "20240115-snap", "report.txt"),
        "/tmp/rplugin/20240115/20240115-snap/report.txt"
    );
    assert_eq!(
        store_dir("/tmp/rplugin", "20240115", "20240115-snap"),
        "/tmp/rplugin/20240115/20240115-snap"
    );
}
