use launcher_core::backend::log_content;
use launcher_core::java::{
    adoptium_arch, adoptium_os, download_refused, download_url, fallback_installation,
    get_java_search_paths, resolve_java_path, runtime_dir_name, JavaInstallation,
};
use launcher_core::launcher::{
    classpath_text, game_arguments, jvm_arguments, natives_dir_name, Account, GameProcess,
    Instance, LauncherState, PrepareResponse,
};
use launcher_core::text::{decimal_text, join, same_text, signed_decimal_text};

fn strings(items: &[&str]) -> Vec<String> {
    items.iter().map(|s| s.to_string()).collect()
}

fn instance() -> Instance {
    Instance {
        id: "inst-1".to_string(),
        mc_version: "1.20.4".to_string(),
        version_type: "release".to_string(),
        java_version: 17,
        java_path: None,
        ram_min: 2,
        ram_max: 4,
        resolution_width: Some(1280),
        resolution_height: Some(720),
        jvm_args: strings(&["-XX:+UseG1GC", "-Dfoo=bar"]),
        game_args: strings(&["--demo"]),
    }
}

fn account() -> Account {
    Account { uuid: "profile-1".to_string(), username: "Steve".to_string() }
}

fn prepared() -> PrepareResponse {
    PrepareResponse {
        classpath: strings(&["/lib/a.jar", "/lib/b.jar"]),
        main_class: "net.minecraft.client.main.Main".to_string(),
        asset_index: "12".to_string(),
        assets_dir: "/assets".to_string(),
        version_id: "1.20.4".to_string(),
        game_jar_path: "/versions/1.20.4.jar".to_string(),
    }
}

fn runtime(version: u32, path: &str) -> JavaInstallation {
    JavaInstallation {
        version,
        path: path.to_string(),
        vendor: "OpenJDK".to_string(),
        full_version: format!("{}.0.0", version),
    }
}

#[test]
fn decimal_text_writes_numbers_as_display_does() {
    for n in [0u64, 1, 9, 10, 11, 99, 100, 101, 1234567890, 4294967295, u64::MAX] {
        assert_eq!(decimal_text(n), n.to_string());
    }
    for v in [0i64, 1, -1, 9, -9, 10, -10, 2147483647, -2147483648, i64::MAX, i64::MIN] {
        assert_eq!(signed_decimal_text(v), v.to_string());
    }
}

#[test]
fn join_puts_the_separator_between_parts() {
    assert_eq!(join(&strings(&[]), ":"), "");
    assert_eq!(join(&strings(&["a"]), ":"), "a");
    assert_eq!(join(&strings(&["a", "b", "c"]), ":"), "a:b:c");
    assert_eq!(join(&strings(&["", ""]), ", "), ", ");
    assert!(same_text("abc", "abc"));
    assert!(!same_text("abc", "abd"));
    assert!(!same_text("abc", "ab"));
}

#[test]
fn classpath_ends_with_the_game_archive() {
    assert_eq!(classpath_text(&prepared(), ":"), "/lib/a.jar:/lib/b.jar:/versions/1.20.4.jar");
    assert_eq!(classpath_text(&prepared(), ";"), "/lib/a.jar;/lib/b.jar;/versions/1.20.4.jar");
    let mut bare = prepared();
    bare.classpath = Vec::new();
    assert_eq!(classpath_text(&bare, ":"), "/versions/1.20.4.jar");
}

#[test]
fn jvm_arguments_are_in_the_fixed_order() {
    assert_eq!(
        jvm_arguments(&instance(), "/data/natives/inst-1-5", "a.jar:b.jar"),
        strings(&[
            "-Xms2G",
            "-Xmx4G",
            "-Djava.library.path=/data/natives/inst-1-5",
            "-Dminecraft.launcher.brand=MCServerManager",
            "-Dminecraft.launcher.version=1.0",
            "-XX:+UseG1GC",
            "-Dfoo=bar",
            "-cp",
            "a.jar:b.jar",
        ])
    );
}

#[test]
fn game_arguments_carry_the_window_size_only_when_both_are_given() {
    let fixed = [
        "--username", "Steve", "--version", "1.20.4", "--gameDir", "/data/inst-1", "--assetsDir",
        "/data/assets", "--assetIndex", "12", "--uuid", "profile-1", "--accessToken", "tok",
        "--userType", "msa", "--versionType", "release",
    ];
    let mut with_size = strings(&fixed);
    with_size.extend(strings(&["--width", "1280", "--height", "720", "--demo"]));
    assert_eq!(
        game_arguments(&instance(), &account(), &prepared(), "/data/inst-1", "/data/assets", "tok"),
        with_size
    );
    let mut without_size = strings(&fixed);
    without_size.extend(strings(&["--demo"]));
    let mut no_height = instance();
    no_height.resolution_height = None;
    assert_eq!(
        game_arguments(&no_height, &account(), &prepared(), "/data/inst-1", "/data/assets", "tok"),
        without_size
    );
    let mut no_width = instance();
    no_width.resolution_width = None;
    assert_eq!(
        game_arguments(&no_width, &account(), &prepared(), "/data/inst-1", "/data/assets", "tok"),
        without_size
    );
}

#[test]
fn natives_directory_is_named_by_instance_and_time() {
    assert_eq!(natives_dir_name("inst-1", 1700000000), "inst-1-1700000000");
    assert_eq!(natives_dir_name("x", -5), "x--5");
}

#[test]
fn launch_is_refused_while_the_instance_runs() {
    let mut state = LauncherState::new();
    assert!(state.check_not_running("a").is_ok());
    assert_eq!(state.running_pid("a").unwrap_err(), "No running game found for this instance");
    state.started(GameProcess { instance_id: "a".to_string(), pid: 7, started_at: "t".to_string() });
    assert_eq!(
        state.check_not_running("a").unwrap_err(),
        "Game is already running for this instance"
    );
    assert!(state.check_not_running("b").is_ok());
    assert_eq!(state.running_pid("a"), Ok(7));
}

#[test]
fn java_path_of_the_instance_wins_over_installed_runtimes() {
    let found = vec![runtime(21, "/j21"), runtime(17, "/j17"), runtime(17, "/other17")];
    assert_eq!(resolve_java_path(Some("/custom".to_string()), 17, &found), Ok("/custom".to_string()));
    assert_eq!(resolve_java_path(None, 17, &found), Ok("/j17".to_string()));
    assert_eq!(resolve_java_path(None, 21, &found), Ok("/j21".to_string()));
    assert_eq!(
        resolve_java_path(None, 8, &found),
        Err("Java 8 not found. Please install it or specify a custom path.".to_string())
    );
    assert_eq!(
        resolve_java_path(None, -1, &found),
        Err("Java -1 not found. Please install it or specify a custom path.".to_string())
    );
    let odd = vec![runtime(4294967295, "/odd")];
    assert_eq!(resolve_java_path(None, -1, &odd), Ok("/odd".to_string()));
}

#[test]
fn download_names_follow_the_service() {
    assert_eq!(adoptium_os("windows"), Ok("windows"));
    assert_eq!(adoptium_os("macos"), Ok("mac"));
    assert_eq!(adoptium_os("linux"), Ok("linux"));
    assert_eq!(adoptium_os("freebsd"), Err("Unsupported OS: freebsd".to_string()));
    assert_eq!(adoptium_arch("x86_64"), Ok("x64"));
    assert_eq!(adoptium_arch("aarch64"), Ok("aarch64"));
    assert_eq!(adoptium_arch("riscv64"), Err("Unsupported architecture: riscv64".to_string()));
    assert_eq!(
        download_url(21, "macos", "aarch64"),
        Ok("https://api.adoptium.net/v3/binary/latest/21/ga/mac/aarch64/jdk/hotspot/normal/eclipse"
            .to_string())
    );
    assert_eq!(
        download_url(8, "linux", "x86_64"),
        Ok("https://api.adoptium.net/v3/binary/latest/8/ga/linux/x64/jdk/hotspot/normal/eclipse"
            .to_string())
    );
    assert_eq!(download_url(8, "plan9", "mips"), Err("Unsupported OS: plan9".to_string()));
    assert_eq!(download_url(8, "linux", "mips"), Err("Unsupported architecture: mips".to_string()));
    assert_eq!(runtime_dir_name(17), "java-17");
    assert_eq!(download_refused(17, "404 Not Found"), "Failed to download Java 17: HTTP 404 Not Found");
}

#[test]
fn fallback_installation_stands_in_for_an_unreadable_runtime() {
    assert_eq!(
        fallback_installation(21, "/rt/bin/java"),
        JavaInstallation {
            version: 21,
            path: "/rt/bin/java".to_string(),
            vendor: "Eclipse Adoptium".to_string(),
            full_version: "21.0.0".to_string(),
        }
    );
}

#[test]
fn search_paths_depend_on_the_system() {
    assert_eq!(
        get_java_search_paths("windows"),
        strings(&[
            "C:\\Program Files\\Java",
            "C:\\Program Files\\Eclipse Adoptium",
            "C:\\Program Files\\Microsoft\\jdk",
        ])
    );
    assert_eq!(
        get_java_search_paths("macos"),
        strings(&["/Library/Java/JavaVirtualMachines", "/opt/homebrew/opt", "/usr/local/opt"])
    );
    assert_eq!(get_java_search_paths("linux"), strings(&["/usr/lib/jvm", "/usr/java"]));
    assert_eq!(get_java_search_paths("haiku"), Vec::<String>::new());
}

#[test]
fn log_has_the_extra_line_last() {
    assert_eq!(log_content(&strings(&["a", "b"]), ""), "a\nb");
    assert_eq!(log_content(&strings(&["a", "b"]), "FATAL: x"), "a\nb\nFATAL: x");
    assert_eq!(log_content(&strings(&[]), "FATAL: x"), "\nFATAL: x");
    assert_eq!(log_content(&strings(&[]), ""), "");
}
