use launcher_core::java::{installation_from_output, parse_java_version, select_java, JavaInstallation};

#[test]
fn test_parse_modern_version() {
    let output = "openjdk version \"21.0.3\" 2024-04-16\nOpenJDK Runtime Environment Temurin-21.0.3+9 (build 21.0.3+9)\nOpenJDK 64-Bit Server VM Temurin-21.0.3+9 (build 21.0.3+9, mixed mode, sharing)";
    let (major, full, vendor) = parse_java_version(output).unwrap();
    assert_eq!(major, 21);
    assert_eq!(full, "21.0.3");
    assert_eq!(vendor, "Eclipse Adoptium");
}

#[test]
fn test_parse_legacy_version() {
    let output = "java version \"1.8.0_392\"\nJava(TM) SE Runtime Environment (build 1.8.0_392-b08)\nJava HotSpot(TM) 64-Bit Server VM (build 25.392-b08, mixed mode)";
    let (major, full, vendor) = parse_java_version(output).unwrap();
    assert_eq!(major, 8);
    assert_eq!(full, "1.8.0_392");
    assert_eq!(vendor, "Oracle");
}

#[test]
fn test_parse_openjdk_generic() {
    let output = "openjdk version \"17.0.9\" 2023-10-17\nOpenJDK Runtime Environment (build 17.0.9+9-Ubuntu-122.04)\nOpenJDK 64-Bit Server VM (build 17.0.9+9-Ubuntu-122.04, mixed mode, sharing)";
    let (major, full, vendor) = parse_java_version(output).unwrap();
    assert_eq!(major, 17);
    assert_eq!(full, "17.0.9");
    assert_eq!(vendor, "OpenJDK");
}

#[test]
fn test_parse_invalid_output() {
    assert!(parse_java_version("not java output").is_none());
    assert!(parse_java_version("").is_none());
}

#[test]
fn version_line_need_not_be_first() {
    let output = "Picked up JAVA_TOOL_OPTIONS: -Xmx1g\nopenjdk version \"11.0.2\" 2019-01-15\n";
    let (major, full, vendor) = parse_java_version(output).unwrap();
    assert_eq!(major, 11);
    assert_eq!(full, "11.0.2");
    assert_eq!(vendor, "Unknown");
}

#[test]
fn carriage_return_is_not_part_of_the_line() {
    let (major, full, _) = parse_java_version("java version \"9\r\nmore").unwrap();
    assert_eq!(major, 9);
    assert_eq!(full, "9");
    let (major, full, _) = parse_java_version("java version \"17.0.1\"\r\nZulu").unwrap();
    assert_eq!(major, 17);
    assert_eq!(full, "17.0.1");
}

#[test]
fn carriage_return_at_the_very_end_stays() {
    assert!(parse_java_version("java version \"9\r").is_none());
}

#[test]
fn version_without_quote_is_rejected() {
    assert!(parse_java_version("java version 17.0.1").is_none());
    assert!(parse_java_version("\"17\"\njava version 17").is_none());
}

#[test]
fn unclosed_quote_runs_to_the_end_of_the_line() {
    let (major, full, _) = parse_java_version("openjdk version \"21.0.1\nnext").unwrap();
    assert_eq!(major, 21);
    assert_eq!(full, "21.0.1");
}

#[test]
fn major_must_be_a_number() {
    assert!(parse_java_version("java version \"abc.1\"").is_none());
    assert!(parse_java_version("java version \"\"").is_none());
    assert!(parse_java_version("java version \"1.\"").is_none());
    assert!(parse_java_version("java version \"1.x.0\"").is_none());
    assert!(parse_java_version("java version \"-5.0\"").is_none());
    assert!(parse_java_version("java version \"4294967296.0\"").is_none());
}

#[test]
fn major_may_carry_a_plus_and_reach_the_limit() {
    assert_eq!(parse_java_version("java version \"+7.1\"").unwrap().0, 7);
    assert_eq!(parse_java_version("java version \"4294967295\"").unwrap().0, 4294967295);
    assert_eq!(parse_java_version("java version \"007.1\"").unwrap().0, 7);
    assert_eq!(parse_java_version("java version \"1.0\"").unwrap().0, 0);
    assert_eq!(parse_java_version("java version \"1\"").unwrap().0, 1);
    assert_eq!(parse_java_version("java version \"10.2\"").unwrap().0, 10);
}

#[test]
fn vendors_are_tried_in_order() {
    let vendor = |rest: &str| parse_java_version(&format!("x version \"17\"\n{}", rest)).unwrap().2;
    assert_eq!(vendor("Eclipse Adoptium Oracle"), "Eclipse Adoptium");
    assert_eq!(vendor("Oracle Microsoft"), "Oracle");
    assert_eq!(vendor("Microsoft GraalVM"), "Microsoft");
    assert_eq!(vendor("GraalVM Zulu"), "GraalVM");
    assert_eq!(vendor("Azul Amazon"), "Azul Zulu");
    assert_eq!(vendor("Zulu"), "Azul Zulu");
    assert_eq!(vendor("Amazon OpenJDK"), "Amazon Corretto");
    assert_eq!(vendor("Corretto"), "Amazon Corretto");
    assert_eq!(vendor("OpenJDK"), "OpenJDK");
    assert_eq!(vendor("openjdk"), "Unknown");
}

#[test]
fn non_ascii_output_is_read_by_characters() {
    let (major, full, vendor) =
        parse_java_version("h\u{e9}llo \u{2603}\nopenjdk version \"17.0.\u{e9}\" Temurin").unwrap();
    assert_eq!(major, 17);
    assert_eq!(full, "17.0.\u{e9}");
    assert_eq!(vendor, "Eclipse Adoptium");
}

#[test]
fn installation_takes_path_and_parsed_fields() {
    let found = installation_from_output("/usr/bin/java", "openjdk version \"17.0.9\"\nOpenJDK").unwrap();
    assert_eq!(
        found,
        JavaInstallation {
            version: 17,
            path: "/usr/bin/java".to_string(),
            vendor: "OpenJDK".to_string(),
            full_version: "17.0.9".to_string(),
        }
    );
    assert_eq!(
        installation_from_output("/usr/bin/java", "nothing").unwrap_err(),
        "Could not parse java version output"
    );
}

#[test]
fn select_java_takes_the_first_match() {
    let make = |version: u32, path: &str| JavaInstallation {
        version,
        path: path.to_string(),
        vendor: "OpenJDK".to_string(),
        full_version: format!("{}.0.0", version),
    };
    let found = vec![make(21, "a"), make(17, "b"), make(17, "c"), make(8, "d")];
    assert_eq!(select_java(&found, 17), Some(1));
    assert_eq!(select_java(&found, 21), Some(0));
    assert_eq!(select_java(&found, 8), Some(3));
    assert_eq!(select_java(&found, 11), None);
    assert_eq!(select_java(&Vec::new(), 11), None);
}
