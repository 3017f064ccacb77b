use minecraft_server_launcher::config::config_file::ConfigFileData;
use minecraft_server_launcher::helpers::backup::{backup_entries, backup_file};
use minecraft_server_launcher::helpers::java_helpers::{find_java_executable, launch_arguments};
use minecraft_server_launcher::helpers::text::{
    chars_of, find_from, format_number, join_text, parse_number, same_text, split_once_text,
    split_text, stands_at, text_of,
};
use minecraft_server_launcher::helpers::web_data::{
    Application, BuildData, DownloadsData, VersionData,
};

fn chars(text: &str) -> Vec<char> {
    text.chars().collect()
}

fn pieces(text: &str, pattern: &str) -> Vec<String> {
    split_text(&chars(text), &chars(pattern)).iter().map(|p| p.iter().collect()).collect()
}

#[test]
fn java_command_is_preferred() {
    assert_eq!(find_java_executable(true, None), Ok(String::from("java")));
    assert_eq!(
        find_java_executable(true, Some(String::from("/opt/jdk"))),
        Ok(String::from("java"))
    );
}

#[test]
fn java_home_is_the_fallback() {
    assert_eq!(
        find_java_executable(false, Some(String::from("/opt/jdk"))),
        Ok(String::from("/opt/jdk"))
    );
}

#[test]
fn java_may_be_missing() {
    assert_eq!(
        find_java_executable(false, None),
        Err(String::from("Java executable could not be found!"))
    );
}

#[test]
fn arguments_for_a_small_heap() {
    let arguments = launch_arguments(&ConfigFileData::default(), "/r/paper.jar");
    let expected = vec![
        "-Xmx4G",
        "-Xms4G",
        "-XX:+ParallelRefProcEnabled",
        "-XX:MaxGCPauseMillis=200",
        "-XX:+UnlockExperimentalVMOptions",
        "-XX:+DisableExplicitGC",
        "-XX:+AlwaysPreTouch",
        "-XX:G1HeapWastePercent=5",
        "-XX:G1MixedGCCountTarget=4",
        "-XX:G1MixedGCLiveThresholdPercent=90",
        "-XX:G1RSetUpdatingPauseTimePercent=5",
        "-XX:SurvivorRatio=32",
        "-XX:+PerfDisableSharedMem",
        "-XX:MaxTenuringThreshold=1",
        "-Dusing.aikars.flags=https://mcflags.emc.gs",
        "-Daikars.new.flags=true",
        "-Dfile.encoding=UTF-8",
        "-Dcom.mojang.eula.agree=true",
        "-XX:G1NewSizePercent=30",
        "-XX:G1MaxNewSizePercent=40",
        "-XX:G1HeapRegionSize=8M",
        "-XX:G1ReservePercent=20",
        "-XX:InitiatingHeapOccupancyPercent=15",
        "-jar",
        "/r/paper.jar",
        "--nogui",
        "-s100",
        "-Pplugins",
        "-Wworlds",
        "-p25565",
    ];
    assert_eq!(arguments, expected);
}

#[test]
fn arguments_for_a_large_heap() {
    let config = ConfigFileData { memory: 12, ..ConfigFileData::default() };
    let arguments = launch_arguments(&config, "paper.jar");
    assert_eq!(arguments.len(), 30);
    assert_eq!(arguments[0], "-Xmx12G");
    assert_eq!(arguments[1], "-Xms12G");
    assert_eq!(
        arguments[18..23],
        [
            "-XX:G1NewSizePercent=40",
            "-XX:G1MaxNewSizePercent=50",
            "-XX:G1HeapRegionSize=16M",
            "-XX:G1ReservePercent=15",
            "-XX:InitiatingHeapOccupancyPercent=20",
        ]
    );
    let small = ConfigFileData { memory: 11, ..ConfigFileData::default() };
    assert_eq!(launch_arguments(&small, "paper.jar")[18], "-XX:G1NewSizePercent=30");
}

#[test]
fn backup_is_named_by_its_time() {
    assert_eq!(backup_file("20220815-101500"), ".backup/backup-20220815-101500.tar.gz");
}

#[test]
fn backup_leaves_out_its_own_directory() {
    let entries = vec![
        String::from("worlds"),
        String::from(".backup"),
        String::from("plugins"),
        String::from(".backup2"),
        String::from(".backup"),
    ];
    assert_eq!(
        backup_entries(&entries),
        vec![String::from("worlds"), String::from("plugins"), String::from(".backup2")]
    );
    assert_eq!(backup_entries(&Vec::new()), Vec::<String>::new());
}

#[test]
fn latest_build_of_a_version() {
    assert_eq!(VersionData { builds: vec![10, 11, 12] }.latest_build(), Some(12));
    assert_eq!(VersionData { builds: vec![3] }.latest_build(), Some(3));
    assert_eq!(VersionData { builds: vec![] }.latest_build(), None);
}

#[test]
fn file_name_of_a_build() {
    let build = BuildData {
        downloads: DownloadsData { application: Application { name: String::from("p.jar") } },
    };
    assert_eq!(build.file_name(), "p.jar");
}

#[test]
fn characters_and_strings() {
    assert_eq!(chars_of("aé世"), vec!['a', 'é', '世']);
    assert_eq!(chars_of(""), Vec::<char>::new());
    assert_eq!(text_of(&chars("hello")), "hello");
    assert_eq!(text_of(&chars("")), "");
    assert_eq!(text_of(&chars("a世b")), "a世b");
}

#[test]
fn patterns_are_found() {
    assert!(stands_at(&chars("a, b"), &chars(", "), 1));
    assert!(!stands_at(&chars("a, b"), &chars(", "), 0));
    assert!(!stands_at(&chars("a,"), &chars(", "), 1));
    assert!(stands_at(&chars("ab"), &chars(""), 2));
    assert!(!stands_at(&chars("ab"), &chars(""), 3));
    assert!(!stands_at(&chars("ab"), &chars("b"), 7));
    assert_eq!(find_from(&chars("a-b-c"), &chars("-"), 0), Some(1));
    assert_eq!(find_from(&chars("a-b-c"), &chars("-"), 2), Some(3));
    assert_eq!(find_from(&chars("a-b-c"), &chars("-"), 4), None);
    assert_eq!(find_from(&chars("abc"), &chars("bcd"), 0), None);
    assert_eq!(find_from(&chars("abc"), &chars("c"), 3), None);
    assert_eq!(find_from(&chars("abc"), &chars("c"), 9), None);
    assert_eq!(find_from(&chars("abc"), &chars(""), 3), Some(3));
}

#[test]
fn texts_are_split() {
    assert_eq!(pieces("a-b-c", "-"), ["a", "b", "c"]);
    assert_eq!(pieces("", "-"), [""]);
    assert_eq!(pieces("-", "-"), ["", ""]);
    assert_eq!(pieces("--a", "-"), ["", "", "a"]);
    assert_eq!(pieces("a, b,c, ", ", "), ["a", "b,c", ""]);
    assert_eq!(pieces("aaa", "aa"), ["", "a"]);
    assert_eq!(pieces("abc", "abcd"), ["abc"]);
    assert_eq!(pieces("abc", ""), ["abc"]);
}

#[test]
fn texts_are_split_once() {
    assert_eq!(
        split_once_text(&chars("k=v=w"), &chars("=")),
        Some((chars("k"), chars("v=w")))
    );
    assert_eq!(split_once_text(&chars("=v"), &chars("=")), Some((chars(""), chars("v"))));
    assert_eq!(split_once_text(&chars("k="), &chars("=")), Some((chars("k"), chars(""))));
    assert_eq!(split_once_text(&chars("kv"), &chars("=")), None);
    assert_eq!(split_once_text(&chars("kv"), &chars("")), Some((chars(""), chars("kv"))));
}

#[test]
fn texts_are_joined() {
    let items = vec![chars("a"), chars(""), chars("bc")];
    assert_eq!(join_text(&items, &chars(", ")), chars("a, , bc"));
    assert_eq!(join_text(&vec![chars("a")], &chars(", ")), chars("a"));
    assert_eq!(join_text(&Vec::new(), &chars(", ")), chars(""));
}

#[test]
fn texts_are_compared() {
    assert!(same_text(&chars("abc"), &chars("abc")));
    assert!(!same_text(&chars("abc"), &chars("abd")));
    assert!(!same_text(&chars("abc"), &chars("ab")));
    assert!(same_text(&chars(""), &chars("")));
}

#[test]
fn numbers_are_read() {
    assert_eq!(parse_number(&chars("0"), 255), Some(0));
    assert_eq!(parse_number(&chars("255"), 255), Some(255));
    assert_eq!(parse_number(&chars("256"), 255), None);
    assert_eq!(parse_number(&chars("+12"), 255), Some(12));
    assert_eq!(parse_number(&chars("0000000000000000000012"), 255), Some(12));
    assert_eq!(parse_number(&chars("65535"), 65535), Some(65535));
    assert_eq!(parse_number(&chars("65536"), 65535), None);
    assert_eq!(parse_number(&chars("4294967296"), 65535), None);
    assert_eq!(parse_number(&chars(""), 255), None);
    assert_eq!(parse_number(&chars("+"), 255), None);
    assert_eq!(parse_number(&chars("++1"), 255), None);
    assert_eq!(parse_number(&chars("-1"), 255), None);
    assert_eq!(parse_number(&chars("1 "), 255), None);
    assert_eq!(parse_number(&chars("١"), 255), None);
    assert_eq!(parse_number(&chars("1"), 0), None);
    assert_eq!(parse_number(&chars("0"), 0), Some(0));
    assert_eq!(parse_number(&chars("4294967295"), 4294967295), Some(4294967295));
    assert_eq!(parse_number(&chars("4294967296"), 4294967295), None);
}

#[test]
fn numbers_are_written() {
    assert_eq!(format_number(0), chars("0"));
    assert_eq!(format_number(7), chars("7"));
    assert_eq!(format_number(10), chars("10"));
    assert_eq!(format_number(25565), chars("25565"));
    assert_eq!(format_number(4294967295), chars("4294967295"));
}

#[test]
fn written_numbers_read_back() {
    for n in [0u32, 1, 9, 10, 99, 100, 255, 256, 4096, 65535] {
        assert_eq!(parse_number(&format_number(n), 65535), Some(n));
    }
}
