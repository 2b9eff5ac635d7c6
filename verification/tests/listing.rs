use ftp_rustified::listing::{
    add_file_info, format_file_info, list_dir, protected_path, CivilTime, FileInfo,
};
use ftp_rustified::utils::{get_permissions, CONFIG_FILE};

fn file(path: &str, size: u64, modified: i64) -> FileInfo {
    FileInfo { path: path.to_string(), is_dir: false, readonly: false, mode: 0o100644, size, modified }
}

fn dir(path: &str, modified: i64) -> FileInfo {
    FileInfo { path: path.to_string(), is_dir: true, readonly: false, mode: 0o40755, size: 4096, modified }
}

const NEW_YEAR_2019: i64 = 1_546_300_800;
const FEB_2019: i64 = 1_550_000_000;
const SEP_2020: i64 = 1_600_000_000;

#[test]
fn permissions_of_mode_bits() {
    assert_eq!(get_permissions(0o755), "rwxr-xr-x");
    assert_eq!(get_permissions(0o644), "rw-r--r--");
    assert_eq!(get_permissions(0o000), "---------");
    assert_eq!(get_permissions(0o777), "rwxrwxrwx");
    assert_eq!(get_permissions(0o100421), "r---w---x");
    assert_eq!(get_permissions(0o124), "--x-w-r--");
}

#[test]
fn config_file_name() {
    assert_eq!(CONFIG_FILE, "config.json");
}

#[test]
fn line_of_a_file_changed_this_year() {
    let date = CivilTime { year: 2019, month: 1, day: 1, hour: 0, minute: 0 };
    assert_eq!(
        format_file_info(&file("/srv/ftp/notes.txt", 1234, 0), date, Some(2019)),
        "-rw-r--r-- 1 ftp-rustified anonymous 1234 Jan 01 00:00 notes.txt\r\n"
    );
}

#[test]
fn line_of_a_file_changed_in_another_year() {
    let date = CivilTime { year: 2001, month: 9, day: 9, hour: 1, minute: 46 };
    assert_eq!(
        format_file_info(&file("/srv/ftp/old.bin", 0, 0), date, Some(2019)),
        "-rw-r--r-- 1 ftp-rustified anonymous 0 Sep 09  2001 old.bin\r\n"
    );
    assert_eq!(
        format_file_info(&file("/srv/ftp/old.bin", 0, 0), date, None),
        "-rw-r--r-- 1 ftp-rustified anonymous 0 Sep 09  2001 old.bin\r\n"
    );
}

#[test]
fn line_of_a_directory_ends_in_a_slash() {
    let date = CivilTime { year: 2024, month: 12, day: 31, hour: 23, minute: 59 };
    assert_eq!(
        format_file_info(&dir("/srv/ftp/sub", 0), date, Some(2024)),
        "drwxr-xr-x 1 ftp-rustified anonymous 4096 Dec 31 23:59 sub/\r\n"
    );
}

#[test]
fn line_of_a_read_only_entry() {
    let date = CivilTime { year: 2024, month: 6, day: 5, hour: 7, minute: 8 };
    let mut info = file("plain", 18_446_744_073_709_551_615, 0);
    info.readonly = true;
    assert_eq!(
        format_file_info(&info, date, Some(2024)),
        "-r--r--r-- 1 ftp-rustified anonymous 18446744073709551615 Jun 05 07:08 plain\r\n"
    );
}

#[test]
fn line_names_every_month() {
    let names = ["Jan", "Feb", "Mar", "Apr", "May", "Jun", "Jul", "Aug", "Sep", "Oct", "Nov", "Dec"];
    for (i, name) in names.iter().enumerate() {
        let date = CivilTime { year: 2000, month: i as u8 + 1, day: 10, hour: 10, minute: 10 };
        let line = format_file_info(&file("f", 1, 0), date, Some(2000));
        assert_eq!(line, format!("-rw-r--r-- 1 ftp-rustified anonymous 1 {} 10 10:10 f\r\n", name));
    }
}

#[test]
fn line_of_a_year_before_the_common_era() {
    let date = CivilTime { year: -44, month: 3, day: 15, hour: 12, minute: 0 };
    assert_eq!(
        format_file_info(&file("f", 1, 0), date, Some(2000)),
        "-rw-r--r-- 1 ftp-rustified anonymous 1 Mar 15  -44 f\r\n"
    );
}

#[test]
fn add_file_info_reads_the_date_of_the_timestamp() {
    let mut out = b"x".to_vec();
    add_file_info(&file("/srv/ftp/notes.txt", 1234, NEW_YEAR_2019), FEB_2019, &mut out);
    assert_eq!(
        String::from_utf8(out).unwrap(),
        "x-rw-r--r-- 1 ftp-rustified anonymous 1234 Jan 01 00:00 notes.txt\r\n"
    );
}

#[test]
fn add_file_info_shows_the_year_of_older_entries() {
    let mut out = Vec::new();
    add_file_info(&file("/srv/ftp/notes.txt", 1234, NEW_YEAR_2019), SEP_2020, &mut out);
    assert_eq!(
        String::from_utf8(out).unwrap(),
        "-rw-r--r-- 1 ftp-rustified anonymous 1234 Jan 01  2019 notes.txt\r\n"
    );
}

#[test]
fn add_file_info_reads_hour_and_minute() {
    let mut out = Vec::new();
    add_file_info(&dir("/srv/ftp/sub", 1_000_000_000), 1_000_000_500, &mut out);
    assert_eq!(
        String::from_utf8(out).unwrap(),
        "drwxr-xr-x 1 ftp-rustified anonymous 4096 Sep 09 01:46 sub/\r\n"
    );
}

#[test]
fn add_file_info_before_the_epoch() {
    let mut out = Vec::new();
    add_file_info(&file("f", 1, -1), -1, &mut out);
    assert_eq!(
        String::from_utf8(out).unwrap(),
        "-rw-r--r-- 1 ftp-rustified anonymous 1 Dec 31 23:59 f\r\n"
    );
}

#[test]
fn add_file_info_skips_an_entry_without_a_date() {
    let mut out = b"kept".to_vec();
    add_file_info(&file("f", 1, i64::MAX), FEB_2019, &mut out);
    assert_eq!(out, b"kept".to_vec());
}

#[test]
fn protected_path_is_the_config_file_under_the_root() {
    assert!(protected_path("/srv/ftp", "/srv/ftp/config.json"));
    assert!(protected_path("/srv/ftp/", "/srv/ftp//config.json"));
    assert!(!protected_path("/srv/ftp", "/srv/ftp/sub/config.json"));
    assert!(!protected_path("/srv/ftp", "/srv/ftp/config.json.bak"));
    assert!(!protected_path("/srv/ftp", "/srv/ftp"));
    assert!(!protected_path("/srv/ftp", "/etc/config.json"));
    assert!(!protected_path("/srv/ftp", "srv/ftp/config.json"));
}

fn entries() -> Vec<FileInfo> {
    vec![
        file("/srv/ftp/a.txt", 1, NEW_YEAR_2019),
        file("/srv/ftp/config.json", 2, NEW_YEAR_2019),
        dir("/srv/ftp/sub", NEW_YEAR_2019),
    ]
}

#[test]
fn listing_hides_the_protected_file_from_users() {
    let out = String::from_utf8(list_dir(&entries(), "/srv/ftp", false, FEB_2019)).unwrap();
    assert_eq!(
        out,
        "-rw-r--r-- 1 ftp-rustified anonymous 1 Jan 01 00:00 a.txt\r\n\
         drwxr-xr-x 1 ftp-rustified anonymous 4096 Jan 01 00:00 sub/\r\n"
    );
    assert!(!out.contains("config.json"));
}

#[test]
fn listing_shows_the_protected_file_to_the_admin() {
    let out = String::from_utf8(list_dir(&entries(), "/srv/ftp", true, FEB_2019)).unwrap();
    assert_eq!(
        out,
        "-rw-r--r-- 1 ftp-rustified anonymous 1 Jan 01 00:00 a.txt\r\n\
         -rw-r--r-- 1 ftp-rustified anonymous 2 Jan 01 00:00 config.json\r\n\
         drwxr-xr-x 1 ftp-rustified anonymous 4096 Jan 01 00:00 sub/\r\n"
    );
}

#[test]
fn listing_of_a_subdirectory_shows_a_file_of_that_name() {
    let v = vec![file("/srv/ftp/sub/config.json", 2, NEW_YEAR_2019)];
    let out = String::from_utf8(list_dir(&v, "/srv/ftp", false, FEB_2019)).unwrap();
    assert_eq!(out, "-rw-r--r-- 1 ftp-rustified anonymous 2 Jan 01 00:00 config.json\r\n");
}

#[test]
fn listing_of_nothing_is_empty() {
    assert!(list_dir(&Vec::new(), "/srv/ftp", false, FEB_2019).is_empty());
}
