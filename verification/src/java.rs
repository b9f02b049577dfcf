//! Java runtimes: reading what `java -version` prints, and choosing among the
//! runtimes that were found.

use vstd::prelude::*;
use vstd::string::*;
use crate::text::{
    chars_of, contains, contains_text, decimal, decimal_text, find, first_occurrence, index_of,
    lemma_first_occurrence, parse_u32, position_of, same_text, signed_decimal,
    signed_decimal_text, slice, texts, trim_bounds, trimmed, unsigned_of,
};

verus! {

/// A Java runtime found on this machine.
#[derive(Debug, PartialEq, Eq)]
pub struct JavaInstallation {
    pub version: u32,
    pub path: String,
    pub vendor: String,
    pub full_version: String,
}

impl Clone for JavaInstallation {
    fn clone(&self) -> (r: Self)
        ensures
            r == *self,
    {
        JavaInstallation {
            version: self.version,
            path: self.path.clone(),
            vendor: self.vendor.clone(),
            full_version: self.full_version.clone(),
        }
    }
}

/// Where the line that holds position `at` begins.
pub open spec fn line_start(text: Seq<char>, at: int) -> int
    decreases at,
{
    if at <= 0 {
        0
    } else if text[at - 1] == '\n' {
        at
    } else {
        line_start(text, at - 1)
    }
}

/// The line that holds position `at`, without its line ending: a line ends
/// before a line feed, or before a carriage return that a line feed follows.
pub open spec fn line_around(text: Seq<char>, at: int) -> Seq<char> {
    let start = line_start(text, at);
    let end = index_of(text, '\n', at);
    let stop = if end < text.len() && start < end && text[end - 1] == '\r' {
        end - 1
    } else {
        end
    };
    text.subrange(start, stop)
}

/// What stands between the first double quote of `line` and the next one,
/// or the end of the line where no second one follows.
pub open spec fn quoted(line: Seq<char>) -> Option<Seq<char>> {
    let open = index_of(line, '"', 0);
    if open >= line.len() {
        None
    } else {
        Some(line.subrange(open + 1, index_of(line, '"', open + 1)))
    }
}

/// The major version that a full version string names: its first number, or
/// its second where it is written in the old style that begins with `1.`.
pub open spec fn major_of(full: Seq<char>) -> Option<u32> {
    if full.len() >= 2 && full[0] == '1' && full[1] == '.' {
        unsigned_of(full.subrange(2, index_of(full, '.', 2)))
    } else {
        unsigned_of(full.subrange(0, index_of(full, '.', 0)))
    }
}

/// The vendor that the output names; the first of these that applies.
pub open spec fn vendor_of(text: Seq<char>) -> Seq<char> {
    if contains(text, "Eclipse Adoptium"@) || contains(text, "Temurin"@) {
        "Eclipse Adoptium"@
    } else if contains(text, "Oracle"@) || contains(text, "Java(TM)"@) {
        "Oracle"@
    } else if contains(text, "Microsoft"@) {
        "Microsoft"@
    } else if contains(text, "GraalVM"@) {
        "GraalVM"@
    } else if contains(text, "Azul"@) || contains(text, "Zulu"@) {
        "Azul Zulu"@
    } else if contains(text, "Amazon"@) || contains(text, "Corretto"@) {
        "Amazon Corretto"@
    } else if contains(text, "OpenJDK"@) {
        "OpenJDK"@
    } else {
        "Unknown"@
    }
}

/// What the output of `java -version` says: major version, full version and
/// vendor. The full version is the quoted text on the first line that holds
/// the word `version`; there is no answer where no line holds that word,
/// where that line has no quote, or where the major version is no number.
pub open spec fn java_version_of(text: Seq<char>) -> Option<(u32, Seq<char>, Seq<char>)> {
    let at = first_occurrence(text, "version"@, 0);
    if at < 0 {
        None
    } else {
        match quoted(line_around(text, at)) {
            None => None,
            Some(full) => match major_of(full) {
                None => None,
                Some(major) => Some((major, full, vendor_of(text))),
            },
        }
    }
}

fn line_begin(text: &Vec<char>, at: usize) -> (r: usize)
    requires
        at <= text@.len(),
    ensures
        r == line_start(text@, at as int),
        r <= at,
{
    let mut i: usize = at;
    while i > 0 && text[i - 1] != '\n'
        invariant
            i <= at,
            at <= text@.len(),
            line_start(text@, at as int) == line_start(text@, i as int),
        decreases i,
    {
        i -= 1;
    }
    i
}

fn major_version(full: &Vec<char>) -> (r: Option<u32>)
    ensures
        r == major_of(full@),
{
    if full.len() >= 2 && full[0] == '1' && full[1] == '.' {
        let dot = position_of(full, '.', 2);
        let part = slice(full, 2, dot);
        parse_u32(&part)
    } else {
        let dot = position_of(full, '.', 0);
        let part = slice(full, 0, dot);
        parse_u32(&part)
    }
}

fn vendor_name(text: &Vec<char>) -> (r: String)
    ensures
        r@ == vendor_of(text@),
{
    if contains_text(text, "Eclipse Adoptium") || contains_text(text, "Temurin") {
        String::from_str("Eclipse Adoptium")
    } else if contains_text(text, "Oracle") || contains_text(text, "Java(TM)") {
        String::from_str("Oracle")
    } else if contains_text(text, "Microsoft") {
        String::from_str("Microsoft")
    } else if contains_text(text, "GraalVM") {
        String::from_str("GraalVM")
    } else if contains_text(text, "Azul") || contains_text(text, "Zulu") {
        String::from_str("Azul Zulu")
    } else if contains_text(text, "Amazon") || contains_text(text, "Corretto") {
        String::from_str("Amazon Corretto")
    } else if contains_text(text, "OpenJDK") {
        String::from_str("OpenJDK")
    } else {
        String::from_str("Unknown")
    }
}

/// Reads the output of `java -version`: major version, full version, vendor.
pub fn parse_java_version(stderr: &str) -> (r: Option<(u32, String, String)>)
    ensures
        match java_version_of(stderr@) {
            None => r is None,
            Some(found) => match r {
                None => false,
                Some(got) => got.0 == found.0 && got.1@ == found.1 && got.2@ == found.2,
            },
        },
{
    let text = chars_of(stderr);
    let word = chars_of("version");
    let at = match find(&text, &word) {
        None => {
            return None;
        },
        Some(at) => at,
    };
    proof {
        lemma_first_occurrence(text@, word@, 0);
    }
    let start = line_begin(&text, at);
    let end = position_of(&text, '\n', at);
    let stop = if end < text.len() && start < end && text[end - 1] == '\r' {
        end - 1
    } else {
        end
    };
    let line = slice(&text, start, stop);
    let open = position_of(&line, '"', 0);
    if open >= line.len() {
        return None;
    }
    let close = position_of(&line, '"', open + 1);
    let full = slice(&line, open + 1, close);
    let major = match major_version(&full) {
        None => {
            return None;
        },
        Some(major) => major,
    };
    let vendor = vendor_name(&text);
    let full_version = String::from_str(stderr.substring_char(start + open + 1, start + close));
    assert(full_version@ =~= full@);
    Some((major, full_version, vendor))
}

/// The failure reported for output that names no version.
pub open spec fn unreadable_version() -> Seq<char> {
    "Could not parse java version output"@
}

/// The runtime at `path`, going by what its `-version` run printed.
pub fn installation_from_output(path: &str, stderr: &str) -> (r: Result<JavaInstallation, String>)
    ensures
        match java_version_of(stderr@) {
            None => r is Err && r->Err_0@ == unreadable_version(),
            Some(found) => {
                &&& r is Ok
                &&& r->Ok_0.version == found.0
                &&& r->Ok_0.path@ == path@
                &&& r->Ok_0.full_version@ == found.1
                &&& r->Ok_0.vendor@ == found.2
            },
        },
{
    match parse_java_version(stderr) {
        None => Err(String::from_str("Could not parse java version output")),
        Some((version, full_version, vendor)) => Ok(
            JavaInstallation { version, path: String::from_str(path), vendor, full_version },
        ),
    }
}

/// Picks the first runtime of the wanted major version.
pub fn select_java(installations: &Vec<JavaInstallation>, version: u32) -> (r: Option<usize>)
    ensures
        match r {
            Some(i) => {
                &&& i < installations@.len()
                &&& installations@[i as int].version == version
                &&& forall|j: int| 0 <= j < i ==> installations@[j].version != version
            },
            None => forall|j: int|
                0 <= j < installations@.len() ==> installations@[j].version != version,
        },
{
    let mut i: usize = 0;
    while i < installations.len()
        invariant
            i <= installations@.len(),
            forall|j: int| 0 <= j < i ==> installations@[j].version != version,
        decreases installations@.len() - i,
    {
        if installations[i].version == version {
            return Some(i);
        }
        i += 1;
    }
    None
}

/// The major version that an instance asks for, as runtimes record theirs:
/// the same number, and for a negative one the number that has the same
/// thirty-two bits.
pub open spec fn wanted_version(java_version: i32) -> u32 {
    if java_version >= 0 {
        java_version as u32
    } else {
        (java_version + 0x1_0000_0000) as u32
    }
}

/// What is reported when no runtime of the wanted version is installed.
pub open spec fn java_not_found(java_version: i32) -> Seq<char> {
    "Java "@ + signed_decimal(java_version as int)
        + " not found. Please install it or specify a custom path."@
}

/// The Java binary to launch an instance with: the instance's own path where
/// it has one, else the path of the first installed runtime of the major
/// version it asks for.
pub fn resolve_java_path(
    java_path: Option<String>,
    java_version: i32,
    installations: &Vec<JavaInstallation>,
) -> (r: Result<String, String>)
    ensures
        java_path is Some ==> r == Ok::<String, String>(java_path->0),
        java_path is None ==> match r {
            Ok(path) => exists|i: int|
                {
                    &&& 0 <= i < installations@.len()
                    &&& #[trigger] installations@[i].version == wanted_version(java_version)
                    &&& installations@[i].path == path
                    &&& forall|j: int|
                        0 <= j < i ==> installations@[j].version != wanted_version(java_version)
                },
            Err(text) => {
                &&& text@ == java_not_found(java_version)
                &&& forall|j: int|
                    0 <= j < installations@.len() ==> installations@[j].version != wanted_version(
                        java_version,
                    )
            },
        },
{
    match java_path {
        Some(path) => Ok(path),
        None => {
            let wanted: u32 = if java_version >= 0 {
                java_version as u32
            } else {
                (java_version as i64 + 0x1_0000_0000) as u32
            };
            match select_java(installations, wanted) {
                Some(i) => Ok(installations[i].path.clone()),
                None => Err(
                    String::from_str("Java ").concat(
                        signed_decimal_text(java_version as i64).as_str(),
                    ).concat(" not found. Please install it or specify a custom path."),
                ),
            }
        },
    }
}

/// The name by which the download service knows an operating system.
pub open spec fn adoptium_os_of(os: Seq<char>) -> Option<Seq<char>> {
    if os == "windows"@ {
        Some("windows"@)
    } else if os == "macos"@ {
        Some("mac"@)
    } else if os == "linux"@ {
        Some("linux"@)
    } else {
        None
    }
}

/// The name by which the download service knows a processor architecture.
pub open spec fn adoptium_arch_of(arch: Seq<char>) -> Option<Seq<char>> {
    if arch == "x86_64"@ {
        Some("x64"@)
    } else if arch == "aarch64"@ {
        Some("aarch64"@)
    } else {
        None
    }
}

/// Gives the download service's name for an operating system.
pub fn adoptium_os(os: &str) -> (r: Result<&'static str, String>)
    ensures
        match adoptium_os_of(os@) {
            Some(name) => r is Ok && r->Ok_0@ == name,
            None => r is Err && r->Err_0@ == "Unsupported OS: "@ + os@,
        },
{
    if same_text(os, "windows") {
        Ok("windows")
    } else if same_text(os, "macos") {
        Ok("mac")
    } else if same_text(os, "linux") {
        Ok("linux")
    } else {
        Err(String::from_str("Unsupported OS: ").concat(os))
    }
}

/// Gives the download service's name for a processor architecture.
pub fn adoptium_arch(arch: &str) -> (r: Result<&'static str, String>)
    ensures
        match adoptium_arch_of(arch@) {
            Some(name) => r is Ok && r->Ok_0@ == name,
            None => r is Err && r->Err_0@ == "Unsupported architecture: "@ + arch@,
        },
{
    if same_text(arch, "x86_64") {
        Ok("x64")
    } else if same_text(arch, "aarch64") {
        Ok("aarch64")
    } else {
        Err(String::from_str("Unsupported architecture: ").concat(arch))
    }
}

/// Address of the latest release of a major version for a system.
pub open spec fn download_url_text(version: u32, os: Seq<char>, arch: Seq<char>) -> Seq<char> {
    "https://api.adoptium.net/v3/binary/latest/"@ + decimal(version as nat) + "/ga/"@ + os + "/"@
        + arch + "/jdk/hotspot/normal/eclipse"@
}

/// Where to download a runtime of major version `version` for the system
/// that runs `os` on `arch`. An unknown operating system is reported before
/// an unknown architecture.
pub fn download_url(version: u32, os: &str, arch: &str) -> (r: Result<String, String>)
    ensures
        match (adoptium_os_of(os@), adoptium_arch_of(arch@)) {
            (Some(os_name), Some(arch_name)) => r is Ok && r->Ok_0@ == download_url_text(
                version,
                os_name,
                arch_name,
            ),
            (None, _) => r is Err && r->Err_0@ == "Unsupported OS: "@ + os@,
            (Some(_), None) => r is Err && r->Err_0@ == "Unsupported architecture: "@ + arch@,
        },
{
    let os_name = match adoptium_os(os) {
        Ok(name) => name,
        Err(e) => {
            return Err(e);
        },
    };
    let arch_name = match adoptium_arch(arch) {
        Ok(name) => name,
        Err(e) => {
            return Err(e);
        },
    };
    Ok(
        String::from_str("https://api.adoptium.net/v3/binary/latest/").concat(
            decimal_text(version as u64).as_str(),
        ).concat("/ga/").concat(os_name).concat("/").concat(arch_name).concat(
            "/jdk/hotspot/normal/eclipse",
        ),
    )
}

/// Name of the directory that holds a downloaded runtime.
pub fn runtime_dir_name(version: u32) -> (r: String)
    ensures
        r@ == "java-"@ + decimal(version as nat),
{
    String::from_str("java-").concat(decimal_text(version as u64).as_str())
}

/// What is reported when the download service refuses a download.
pub fn download_refused(version: u32, status: &str) -> (r: String)
    ensures
        r@ == "Failed to download Java "@ + decimal(version as nat) + ": HTTP "@ + status@,
{
    String::from_str("Failed to download Java ").concat(
        decimal_text(version as u64).as_str(),
    ).concat(": HTTP ").concat(status)
}

/// The record of a downloaded runtime whose own version output could not be
/// read: what was asked for stands in for what was not found out.
pub fn fallback_installation(version: u32, path: &str) -> (r: JavaInstallation)
    ensures
        r.version == version,
        r.path@ == path@,
        r.vendor@ == "Eclipse Adoptium"@,
        r.full_version@ == decimal(version as nat) + ".0.0"@,
{
    JavaInstallation {
        version,
        path: String::from_str(path),
        vendor: String::from_str("Eclipse Adoptium"),
        full_version: decimal_text(version as u64).concat(".0.0"),
    }
}

/// The directories in which runtimes are looked for on an operating system.
pub open spec fn search_paths_of(os: Seq<char>) -> Seq<Seq<char>> {
    if os == "windows"@ {
        seq![
            "C:\\Program Files\\Java"@,
            "C:\\Program Files\\Eclipse Adoptium"@,
            "C:\\Program Files\\Microsoft\\jdk"@,
        ]
    } else if os == "macos"@ {
        seq!["/Library/Java/JavaVirtualMachines"@, "/opt/homebrew/opt"@, "/usr/local/opt"@]
    } else if os == "linux"@ {
        seq!["/usr/lib/jvm"@, "/usr/java"@]
    } else {
        Seq::empty()
    }
}

/// The directories in which runtimes are looked for on the operating system
/// `os`; none for a system that is not known.
pub fn get_java_search_paths(os: &str) -> (r: Vec<String>)
    ensures
        texts(r@) == search_paths_of(os@),
{
    let mut paths: Vec<String> = Vec::new();
    if same_text(os, "windows") {
        paths.push(String::from_str("C:\\Program Files\\Java"));
        paths.push(String::from_str("C:\\Program Files\\Eclipse Adoptium"));
        paths.push(String::from_str("C:\\Program Files\\Microsoft\\jdk"));
    } else if same_text(os, "macos") {
        paths.push(String::from_str("/Library/Java/JavaVirtualMachines"));
        paths.push(String::from_str("/opt/homebrew/opt"));
        paths.push(String::from_str("/usr/local/opt"));
    } else if same_text(os, "linux") {
        paths.push(String::from_str("/usr/lib/jvm"));
        paths.push(String::from_str("/usr/java"));
    }
    assert(texts(paths@) =~= search_paths_of(os@));
    paths
}

/// The runtimes found so far, and the places where they were found.
#[derive(Debug)]
pub struct Discovery {
    /// The resolved path of each runtime that was recorded.
    pub seen_paths: Vec<String>,
    /// The runtimes, in the order they were recorded.
    pub installations: Vec<JavaInstallation>,
}

impl Discovery {
    /// No path is held twice, and each path stands for one runtime.
    pub open spec fn wf(&self) -> bool {
        &&& self.seen_paths@.len() == self.installations@.len()
        &&& forall|i: int, j: int|
            0 <= i < j < self.seen_paths@.len() ==> self.seen_paths@[i]@ != self.seen_paths@[j]@
    }

    /// Whether a runtime was recorded at `key`.
    pub open spec fn seen(&self, key: Seq<char>) -> bool {
        exists|i: int| 0 <= i < self.seen_paths@.len() && #[trigger] self.seen_paths@[i]@ == key
    }

    /// Nothing found yet.
    pub fn new() -> (r: Self)
        ensures
            r.wf(),
            r.seen_paths@.len() == 0,
            r.installations@.len() == 0,
    {
        Discovery { seen_paths: Vec::new(), installations: Vec::new() }
    }

    /// Whether a runtime was recorded at `key`.
    pub fn has_seen(&self, key: &str) -> (r: bool)
        ensures
            r == self.seen(key@),
    {
        let wanted = String::from_str(key);
        let mut i: usize = 0;
        while i < self.seen_paths.len()
            invariant
                wanted@ == key@,
                i <= self.seen_paths@.len(),
                forall|j: int| 0 <= j < i ==> self.seen_paths@[j]@ != key@,
            decreases self.seen_paths@.len() - i,
        {
            if self.seen_paths[i] == wanted {
                return true;
            }
            i += 1;
        }
        false
    }

    /// Records the runtime found at `key`, unless one was recorded there
    /// before. Says whether it was recorded.
    pub fn record(&mut self, key: String, found: JavaInstallation) -> (r: bool)
        ensures
            r == !old(self).seen(key@),
            r ==> final(self).seen_paths@ == old(self).seen_paths@.push(key),
            r ==> final(self).installations@ == old(self).installations@.push(found),
            !r ==> *final(self) == *old(self),
            old(self).wf() ==> final(self).wf(),
    {
        if self.has_seen(key.as_str()) {
            false
        } else {
            self.seen_paths.push(key);
            self.installations.push(found);
            true
        }
    }
}

/// Whether `list` has its runtimes from the newest major version to the
/// oldest.
pub open spec fn newest_first(list: Seq<JavaInstallation>) -> bool {
    forall|i: int, j: int| 0 <= i < j < list.len() ==> list[i].version >= list[j].version
}

/// `list` with `item` put in behind every runtime that is at least as new.
pub open spec fn insert_by_version(list: Seq<JavaInstallation>, item: JavaInstallation) -> Seq<
    JavaInstallation,
>
    decreases list.len(),
{
    if list.len() == 0 || list.last().version >= item.version {
        list.push(item)
    } else {
        insert_by_version(list.drop_last(), item).push(list.last())
    }
}

/// The runtimes of `list` from the newest major version to the oldest, those
/// of one version in the order they have in `list`.
pub open spec fn sorted_by_version(list: Seq<JavaInstallation>) -> Seq<JavaInstallation>
    decreases list.len(),
{
    if list.len() == 0 {
        list
    } else {
        insert_by_version(sorted_by_version(list.drop_last()), list.last())
    }
}

/// Putting a runtime into an ordered list keeps the list ordered and adds
/// that runtime and nothing else.
pub proof fn lemma_insert_by_version(list: Seq<JavaInstallation>, item: JavaInstallation)
    requires
        newest_first(list),
    ensures
        newest_first(insert_by_version(list, item)),
        insert_by_version(list, item).len() == list.len() + 1,
        insert_by_version(list, item).to_multiset() == list.to_multiset().insert(item),
    decreases list.len(),
{
    broadcast use vstd::seq_lib::group_to_multiset_ensures;

    if list.len() == 0 || list.last().version >= item.version {
        let out = list.push(item);
        assert forall|i: int, j: int| 0 <= i < j < out.len() implies out[i].version
            >= out[j].version by {
            if j == list.len() {
                assert(list[i].version >= list.last().version);
            }
        }
    } else {
        let rest = list.drop_last();
        assert forall|i: int, j: int| 0 <= i < j < rest.len() implies rest[i].version
            >= rest[j].version by {
            assert(rest[i] == list[i] && rest[j] == list[j]);
        }
        lemma_insert_by_version(rest, item);
        let mid = insert_by_version(rest, item);
        let out = mid.push(list.last());
        assert(list =~= rest.push(list.last()));
        assert(list.to_multiset() == rest.to_multiset().insert(list.last()));
        assert(out.to_multiset() =~= list.to_multiset().insert(item));
        assert forall|i: int, j: int| 0 <= i < j < out.len() implies out[i].version
            >= out[j].version by {
            if j == mid.len() {
                assert(mid.to_multiset().count(mid[i]) > 0);
                if mid[i] != item {
                    assert(rest.to_multiset().count(mid[i]) > 0);
                    assert(rest.contains(mid[i]));
                    let k = choose|k: int| 0 <= k < rest.len() && rest[k] == mid[i];
                    assert(list[k].version >= list.last().version);
                }
            }
        }
    }
}

/// Sorting gives an ordered list of the same runtimes, each as often as
/// before.
pub proof fn law_sorted_by_version(list: Seq<JavaInstallation>)
    ensures
        newest_first(sorted_by_version(list)),
        sorted_by_version(list).len() == list.len(),
        sorted_by_version(list).to_multiset() == list.to_multiset(),
    decreases list.len(),
{
    broadcast use vstd::seq_lib::group_to_multiset_ensures;

    if list.len() > 0 {
        law_sorted_by_version(list.drop_last());
        lemma_insert_by_version(sorted_by_version(list.drop_last()), list.last());
        assert(list =~= list.drop_last().push(list.last()));
        assert(list.to_multiset() == list.drop_last().to_multiset().insert(list.last()));
    }
}

proof fn lemma_insert_position(list: Seq<JavaInstallation>, item: JavaInstallation, at: int)
    requires
        0 <= at <= list.len(),
        at > 0 ==> list[at - 1].version >= item.version,
        forall|k: int| at <= k < list.len() ==> list[k].version < item.version,
    ensures
        insert_by_version(list, item) == list.insert(at, item),
    decreases list.len(),
{
    if list.len() == 0 || list.last().version >= item.version {
        assert(at == list.len());
        assert(list.insert(at, item) =~= list.push(item));
    } else {
        assert(at < list.len());
        lemma_insert_position(list.drop_last(), item, at);
        assert(list.insert(at, item) =~= list.drop_last().insert(at, item).push(list.last()));
    }
}

/// Orders the runtimes from the newest major version to the oldest and
/// leaves those of one version in the order they came in.
pub fn sort_newest_first(list: &Vec<JavaInstallation>) -> (r: Vec<JavaInstallation>)
    ensures
        r@ == sorted_by_version(list@),
{
    let mut out: Vec<JavaInstallation> = Vec::new();
    let mut i: usize = 0;
    while i < list.len()
        invariant
            i <= list@.len(),
            out@ == sorted_by_version(list@.subrange(0, i as int)),
            out@.len() == i,
        decreases list@.len() - i,
    {
        let item = list[i].clone();
        let mut at: usize = out.len();
        while at > 0 && out[at - 1].version < item.version
            invariant
                at <= out@.len(),
                forall|k: int| at <= k < out@.len() ==> out@[k].version < item.version,
            decreases at,
        {
            at -= 1;
        }
        proof {
            lemma_insert_position(out@, item, at as int);
            assert(list@.subrange(0, i + 1).drop_last() =~= list@.subrange(0, i as int));
            assert(list@.subrange(0, i + 1).last() == item);
        }
        out.insert(at, item);
        i += 1;
    }
    assert(list@.subrange(0, i as int) =~= list@);
    out
}

/// The path that a path lookup printed: its first line without the white
/// space around it, unless nothing is left of it.
pub open spec fn java_on_path_of(stdout: Seq<char>) -> Option<Seq<char>> {
    let path = trimmed(line_around(stdout, 0));
    if path.len() == 0 {
        None
    } else {
        Some(path)
    }
}

/// Reads the output of a path lookup for `java`.
pub fn java_on_path(stdout: &str) -> (r: Option<String>)
    ensures
        match java_on_path_of(stdout@) {
            None => r is None,
            Some(path) => r is Some && r->0@ == path,
        },
{
    let text = chars_of(stdout);
    let end = position_of(&text, '\n', 0);
    let stop = if end < text.len() && 0 < end && text[end - 1] == '\r' {
        end - 1
    } else {
        end
    };
    let line = slice(&text, 0, stop);
    let (from, to) = trim_bounds(&line);
    if from >= to {
        None
    } else {
        let path = String::from_str(stdout.substring_char(from, to));
        assert(path@ =~= line@.subrange(from as int, to as int));
        Some(path)
    }
}

} // verus!
