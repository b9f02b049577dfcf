//! The games that the launcher has started and that are still running.

use vstd::prelude::*;
use vstd::string::*;
use crate::text::{
    decimal, decimal_text, extend_texts, join, joined, push_text, same_text, signed_decimal,
    signed_decimal_text, texts,
};

verus! {

/// A game process that the launcher started.
#[derive(Debug, PartialEq, Eq)]
pub struct GameProcess {
    pub instance_id: String,
    pub pid: u32,
    pub started_at: String,
}

impl Clone for GameProcess {
    fn clone(&self) -> (r: Self)
        ensures
            r == *self,
    {
        GameProcess {
            instance_id: self.instance_id.clone(),
            pid: self.pid,
            started_at: self.started_at.clone(),
        }
    }
}

/// The running games, in the order they were started.
#[derive(Debug)]
pub struct LauncherState {
    pub running_games: Vec<GameProcess>,
}

/// Whether a game of `instance` is among `games`.
pub open spec fn runs_in(games: Seq<GameProcess>, instance: Seq<char>) -> bool {
    exists|i: int| 0 <= i < games.len() && #[trigger] games[i].instance_id@ == instance
}

/// `games` without the games of `instance`, the others in their order.
pub open spec fn without_instance(games: Seq<GameProcess>, instance: Seq<char>) -> Seq<
    GameProcess,
>
    decreases games.len(),
{
    if games.len() == 0 {
        games
    } else if games.last().instance_id@ == instance {
        without_instance(games.drop_last(), instance)
    } else {
        without_instance(games.drop_last(), instance).push(games.last())
    }
}

/// What is left after `without_instance` holds no game of the instance, and
/// holds every game of another instance that was there before.
pub proof fn law_without_instance(games: Seq<GameProcess>, instance: Seq<char>)
    ensures
        !runs_in(without_instance(games, instance), instance),
        forall|i: int|
            0 <= i < games.len() && games[i].instance_id@ != instance ==> without_instance(
                games,
                instance,
            ).contains(#[trigger] games[i]),
        without_instance(games, instance).len() <= games.len(),
    decreases games.len(),
{
    if games.len() > 0 {
        let rest = games.drop_last();
        law_without_instance(rest, instance);
        let kept = without_instance(rest, instance);
        let out = without_instance(games, instance);
        assert forall|i: int|
            0 <= i < games.len() && games[i].instance_id@ != instance implies out.contains(
            #[trigger] games[i],
        ) by {
            if i < rest.len() {
                assert(rest[i] == games[i]);
                assert(kept.contains(rest[i]));
                let k = choose|k: int| 0 <= k < kept.len() && kept[k] == rest[i];
                assert(out[k] == games[i]);
            } else {
                assert(out[out.len() - 1] == games[i]);
            }
        }
        if runs_in(out, instance) {
            let k = choose|k: int| 0 <= k < out.len() && #[trigger] out[k].instance_id@ == instance;
            if k < kept.len() {
                assert(kept[k].instance_id@ == instance);
                assert(runs_in(kept, instance));
            }
        }
    }
}

impl LauncherState {
    /// A launcher with no game running.
    pub fn new() -> (r: Self)
        ensures
            r.running_games@.len() == 0,
    {
        LauncherState { running_games: Vec::new() }
    }

    /// Whether a game of the instance is running.
    pub fn is_running(&self, instance_id: &str) -> (r: bool)
        ensures
            r == runs_in(self.running_games@, instance_id@),
    {
        let wanted = String::from_str(instance_id);
        let mut i: usize = 0;
        while i < self.running_games.len()
            invariant
                wanted@ == instance_id@,
                i <= self.running_games@.len(),
                forall|j: int| 0 <= j < i ==> self.running_games@[j].instance_id@ != instance_id@,
            decreases self.running_games@.len() - i,
        {
            if self.running_games[i].instance_id == wanted {
                return true;
            }
            i += 1;
        }
        false
    }

    /// The process id of the first running game of the instance.
    pub fn pid_of(&self, instance_id: &str) -> (r: Option<u32>)
        ensures
            r is Some <==> runs_in(self.running_games@, instance_id@),
            r is Some ==> exists|i: int|
                {
                    &&& 0 <= i < self.running_games@.len()
                    &&& #[trigger] self.running_games@[i].instance_id@ == instance_id@
                    &&& self.running_games@[i].pid == r->0
                    &&& forall|j: int|
                        0 <= j < i ==> self.running_games@[j].instance_id@ != instance_id@
                },
    {
        let wanted = String::from_str(instance_id);
        let mut i: usize = 0;
        while i < self.running_games.len()
            invariant
                wanted@ == instance_id@,
                i <= self.running_games@.len(),
                forall|j: int| 0 <= j < i ==> self.running_games@[j].instance_id@ != instance_id@,
            decreases self.running_games@.len() - i,
        {
            if self.running_games[i].instance_id == wanted {
                return Some(self.running_games[i].pid);
            }
            i += 1;
        }
        None
    }

    /// The running games, in the order they were started.
    pub fn get_running_games(&self) -> (r: Vec<GameProcess>)
        ensures
            r@ == self.running_games@,
    {
        let mut out: Vec<GameProcess> = Vec::new();
        let mut i: usize = 0;
        while i < self.running_games.len()
            invariant
                i <= self.running_games@.len(),
                out@ == self.running_games@.subrange(0, i as int),
            decreases self.running_games@.len() - i,
        {
            out.push(self.running_games[i].clone());
            i += 1;
            assert(out@ =~= self.running_games@.subrange(0, i as int));
        }
        assert(self.running_games@.subrange(0, i as int) =~= self.running_games@);
        out
    }

    /// Records a game that has been started, after those already running.
    pub fn started(&mut self, process: GameProcess)
        ensures
            final(self).running_games@ == old(self).running_games@.push(process),
    {
        self.running_games.push(process);
    }

    /// Drops every game of the instance from the record and keeps the others
    /// in their order.
    pub fn finished(&mut self, instance_id: &str)
        ensures
            final(self).running_games@ == without_instance(
                old(self).running_games@,
                instance_id@,
            ),
    {
        let wanted = String::from_str(instance_id);
        let mut kept: Vec<GameProcess> = Vec::new();
        let mut i: usize = 0;
        while i < self.running_games.len()
            invariant
                wanted@ == instance_id@,
                self.running_games@ == old(self).running_games@,
                i <= self.running_games@.len(),
                kept@ == without_instance(
                    self.running_games@.subrange(0, i as int),
                    instance_id@,
                ),
            decreases self.running_games@.len() - i,
        {
            let ghost before = self.running_games@.subrange(0, i as int);
            let ghost after = self.running_games@.subrange(0, i + 1);
            assert(after.drop_last() =~= before);
            assert(after.last() == self.running_games@[i as int]);
            if !(self.running_games[i].instance_id == wanted) {
                kept.push(self.running_games[i].clone());
            }
            i += 1;
        }
        assert(self.running_games@.subrange(0, i as int) =~= self.running_games@);
        self.running_games = kept;
    }

    /// Refuses a launch for an instance whose game is already running.
    pub fn check_not_running(&self, instance_id: &str) -> (r: Result<(), String>)
        ensures
            runs_in(self.running_games@, instance_id@) ==> r is Err && r->Err_0@
                == "Game is already running for this instance"@,
            !runs_in(self.running_games@, instance_id@) ==> r is Ok,
    {
        if self.is_running(instance_id) {
            Err(String::from_str("Game is already running for this instance"))
        } else {
            Ok(())
        }
    }

    /// The process to stop for an instance: that of its first running game.
    pub fn running_pid(&self, instance_id: &str) -> (r: Result<u32, String>)
        ensures
            r is Ok <==> runs_in(self.running_games@, instance_id@),
            r is Err ==> r->Err_0@ == "No running game found for this instance"@,
            r is Ok ==> exists|i: int|
                {
                    &&& 0 <= i < self.running_games@.len()
                    &&& #[trigger] self.running_games@[i].instance_id@ == instance_id@
                    &&& self.running_games@[i].pid == r->Ok_0
                    &&& forall|j: int|
                        0 <= j < i ==> self.running_games@[j].instance_id@ != instance_id@
                },
    {
        match self.pid_of(instance_id) {
            Some(pid) => Ok(pid),
            None => Err(String::from_str("No running game found for this instance")),
        }
    }
}

/// A game instance as the backend describes it.
#[derive(Debug, Clone, PartialEq, Eq)]
pub struct Instance {
    pub id: String,
    pub mc_version: String,
    pub version_type: String,
    pub java_version: i32,
    pub java_path: Option<String>,
    pub ram_min: i32,
    pub ram_max: i32,
    pub resolution_width: Option<i32>,
    pub resolution_height: Option<i32>,
    pub jvm_args: Vec<String>,
    pub game_args: Vec<String>,
}

/// The player an instance is launched for.
#[derive(Debug, Clone, PartialEq, Eq)]
pub struct Account {
    pub uuid: String,
    pub username: String,
}

/// What the backend has prepared for a launch.
#[derive(Debug, Clone, PartialEq, Eq)]
pub struct PrepareResponse {
    pub classpath: Vec<String>,
    pub main_class: String,
    pub asset_index: String,
    pub assets_dir: String,
    pub version_id: String,
    pub game_jar_path: String,
}

/// Name of the directory that holds the native libraries of one launch.
pub fn natives_dir_name(instance_id: &str, timestamp: i64) -> (r: String)
    ensures
        r@ == instance_id@ + "-"@ + signed_decimal(timestamp as int),
{
    String::from_str(instance_id).concat("-").concat(signed_decimal_text(timestamp).as_str())
}

/// The class path of a launch: the prepared entries, then the game's own
/// archive, with `separator` between each two.
pub fn classpath_text(prepared: &PrepareResponse, separator: &str) -> (r: String)
    ensures
        r@ == joined(texts(prepared.classpath@).push(prepared.game_jar_path@), separator@),
{
    let mut entries: Vec<String> = Vec::new();
    extend_texts(&mut entries, &prepared.classpath);
    push_text(&mut entries, prepared.game_jar_path.as_str());
    assert(texts(entries@) =~= texts(prepared.classpath@).push(prepared.game_jar_path@));
    join(&entries, separator)
}

/// The arguments for the Java machine: memory limits, the native library
/// path, the launcher's name and version, the instance's own arguments, and
/// last the class path.
pub open spec fn jvm_arguments_of(instance: Instance, natives_dir: Seq<char>, classpath: Seq<char>)
    -> Seq<Seq<char>> {
    seq![
        "-Xms"@ + signed_decimal(instance.ram_min as int) + "G"@,
        "-Xmx"@ + signed_decimal(instance.ram_max as int) + "G"@,
        "-Djava.library.path="@ + natives_dir,
        "-Dminecraft.launcher.brand=MCServerManager"@,
        "-Dminecraft.launcher.version=1.0"@,
    ] + texts(instance.jvm_args@) + seq!["-cp"@, classpath]
}

/// Builds the arguments for the Java machine.
pub fn jvm_arguments(instance: &Instance, natives_dir: &str, classpath: &str) -> (r: Vec<String>)
    ensures
        texts(r@) == jvm_arguments_of(*instance, natives_dir@, classpath@),
{
    let mut args: Vec<String> = Vec::new();
    let min = String::from_str("-Xms").concat(
        signed_decimal_text(instance.ram_min as i64).as_str(),
    ).concat("G");
    let max = String::from_str("-Xmx").concat(
        signed_decimal_text(instance.ram_max as i64).as_str(),
    ).concat("G");
    let natives = String::from_str("-Djava.library.path=").concat(natives_dir);
    push_text(&mut args, min.as_str());
    push_text(&mut args, max.as_str());
    push_text(&mut args, natives.as_str());
    push_text(&mut args, "-Dminecraft.launcher.brand=MCServerManager");
    push_text(&mut args, "-Dminecraft.launcher.version=1.0");
    extend_texts(&mut args, &instance.jvm_args);
    push_text(&mut args, "-cp");
    push_text(&mut args, classpath);
    assert(texts(args@) =~= jvm_arguments_of(*instance, natives_dir@, classpath@));
    args
}

/// The window size arguments, where the instance gives both width and
/// height; none otherwise.
pub open spec fn resolution_arguments_of(instance: Instance) -> Seq<Seq<char>> {
    if instance.resolution_width is Some && instance.resolution_height is Some {
        seq![
            "--width"@,
            signed_decimal(instance.resolution_width->0 as int),
            "--height"@,
            signed_decimal(instance.resolution_height->0 as int),
        ]
    } else {
        Seq::empty()
    }
}

/// The arguments for the game itself: who plays, which version, where the
/// files are, the session token, then the window size and the instance's own
/// arguments.
pub open spec fn game_arguments_of(
    instance: Instance,
    account: Account,
    prepared: PrepareResponse,
    instance_dir: Seq<char>,
    assets_dir: Seq<char>,
    access_token: Seq<char>,
) -> Seq<Seq<char>> {
    seq![
        "--username"@,
        account.username@,
        "--version"@,
        instance.mc_version@,
        "--gameDir"@,
        instance_dir,
        "--assetsDir"@,
        assets_dir,
        "--assetIndex"@,
        prepared.asset_index@,
        "--uuid"@,
        account.uuid@,
        "--accessToken"@,
        access_token,
        "--userType"@,
        "msa"@,
        "--versionType"@,
        instance.version_type@,
    ] + resolution_arguments_of(instance) + texts(instance.game_args@)
}

/// Builds the arguments for the game.
pub fn game_arguments(
    instance: &Instance,
    account: &Account,
    prepared: &PrepareResponse,
    instance_dir: &str,
    assets_dir: &str,
    access_token: &str,
) -> (r: Vec<String>)
    ensures
        texts(r@) == game_arguments_of(
            *instance,
            *account,
            *prepared,
            instance_dir@,
            assets_dir@,
            access_token@,
        ),
{
    let mut args: Vec<String> = Vec::new();
    push_text(&mut args, "--username");
    push_text(&mut args, account.username.as_str());
    push_text(&mut args, "--version");
    push_text(&mut args, instance.mc_version.as_str());
    push_text(&mut args, "--gameDir");
    push_text(&mut args, instance_dir);
    push_text(&mut args, "--assetsDir");
    push_text(&mut args, assets_dir);
    push_text(&mut args, "--assetIndex");
    push_text(&mut args, prepared.asset_index.as_str());
    push_text(&mut args, "--uuid");
    push_text(&mut args, account.uuid.as_str());
    push_text(&mut args, "--accessToken");
    push_text(&mut args, access_token);
    push_text(&mut args, "--userType");
    push_text(&mut args, "msa");
    push_text(&mut args, "--versionType");
    push_text(&mut args, instance.version_type.as_str());
    let ghost fixed = texts(args@);
    match (instance.resolution_width, instance.resolution_height) {
        (Some(width), Some(height)) => {
            push_text(&mut args, "--width");
            push_text(&mut args, signed_decimal_text(width as i64).as_str());
            push_text(&mut args, "--height");
            push_text(&mut args, signed_decimal_text(height as i64).as_str());
        },
        _ => {},
    }
    assert(texts(args@) =~= fixed + resolution_arguments_of(*instance));
    extend_texts(&mut args, &instance.game_args);
    assert(texts(args@) =~= game_arguments_of(
        *instance,
        *account,
        *prepared,
        instance_dir@,
        assets_dir@,
        access_token@,
    ));
    args
}

/// The command that stops the process `pid` on the operating system `os`:
/// the program first, then its arguments.
pub open spec fn kill_command_of(os: Seq<char>, pid: u32) -> Seq<Seq<char>> {
    if os == "windows"@ {
        seq!["taskkill"@, "/F"@, "/PID"@, decimal(pid as nat)]
    } else {
        seq!["kill"@, decimal(pid as nat)]
    }
}

/// Builds the command that stops a process.
pub fn kill_command(os: &str, pid: u32) -> (r: Vec<String>)
    ensures
        texts(r@) == kill_command_of(os@, pid),
{
    let mut command: Vec<String> = Vec::new();
    if same_text(os, "windows") {
        push_text(&mut command, "taskkill");
        push_text(&mut command, "/F");
        push_text(&mut command, "/PID");
    } else {
        push_text(&mut command, "kill");
    }
    push_text(&mut command, decimal_text(pid as u64).as_str());
    assert(texts(command@) =~= kill_command_of(os@, pid));
    command
}

} // verus!
