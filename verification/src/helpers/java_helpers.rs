//! The Java runtime: where it is, and how the server is started with it.

use crate::config::config_file::{ConfigFileData, Configuration};
use crate::helpers::text::{decimal, format_number, string_views, text_of};
use vstd::prelude::*;
use vstd::string::StringExecFns;

verus! {

/// The program to start Java with: the command `java` where it can be
/// run, else whatever `JAVA_HOME` holds; with neither, the message that
/// says so.
pub open spec fn java_executable(command_exists: bool, java_home: Option<Seq<char>>) -> Result<
    Seq<char>,
    Seq<char>,
> {
    if command_exists {
        Ok("java"@)
    } else {
        match java_home {
            Some(home) => Ok(home),
            None => Err("Java executable could not be found!"@),
        }
    }
}

/// Picks the program to start Java with, from whether the command `java`
/// can be run and from the value of `JAVA_HOME`, if it is set.
pub fn find_java_executable(command_exists: bool, java_home: Option<String>) -> (r: Result<
    String,
    String,
>)
    ensures
        match r {
            Ok(java) => java_executable(
                command_exists,
                match java_home {
                    Some(home) => Some(home@),
                    None => None,
                },
            ) == Ok::<Seq<char>, Seq<char>>(java@),
            Err(message) => java_executable(
                command_exists,
                match java_home {
                    Some(home) => Some(home@),
                    None => None,
                },
            ) == Err::<Seq<char>, Seq<char>>(message@),
        },
{
    if command_exists {
        Ok(String::from_str("java"))
    } else if let Some(home) = java_home {
        Ok(home)
    } else {
        Err(String::from_str("Java executable could not be found!"))
    }
}

/// The heap limit from which on the collector is tuned for a large heap,
/// in GiB.
pub const LARGE_HEAP: u8 = 12;

/// The options that do not depend on the configuration.
pub open spec fn fixed_options() -> Seq<Seq<char>> {
    seq![
        "-XX:+ParallelRefProcEnabled"@,
        "-XX:MaxGCPauseMillis=200"@,
        "-XX:+UnlockExperimentalVMOptions"@,
        "-XX:+DisableExplicitGC"@,
        "-XX:+AlwaysPreTouch"@,
        "-XX:G1HeapWastePercent=5"@,
        "-XX:G1MixedGCCountTarget=4"@,
        "-XX:G1MixedGCLiveThresholdPercent=90"@,
        "-XX:G1RSetUpdatingPauseTimePercent=5"@,
        "-XX:SurvivorRatio=32"@,
        "-XX:+PerfDisableSharedMem"@,
        "-XX:MaxTenuringThreshold=1"@,
        "-Dusing.aikars.flags=https://mcflags.emc.gs"@,
        "-Daikars.new.flags=true"@,
        "-Dfile.encoding=UTF-8"@,
        "-Dcom.mojang.eula.agree=true"@,
    ]
}

/// The options of the collector, by the size of the heap in GiB.
pub open spec fn heap_options(memory: u8) -> Seq<Seq<char>> {
    if memory < LARGE_HEAP {
        seq![
            "-XX:G1NewSizePercent=30"@,
            "-XX:G1MaxNewSizePercent=40"@,
            "-XX:G1HeapRegionSize=8M"@,
            "-XX:G1ReservePercent=20"@,
            "-XX:InitiatingHeapOccupancyPercent=15"@,
        ]
    } else {
        seq![
            "-XX:G1NewSizePercent=40"@,
            "-XX:G1MaxNewSizePercent=50"@,
            "-XX:G1HeapRegionSize=16M"@,
            "-XX:G1ReservePercent=15"@,
            "-XX:InitiatingHeapOccupancyPercent=20"@,
        ]
    }
}

/// The options that name the artifact and hand the configuration on to
/// the server.
pub open spec fn server_options(c: Configuration, jar: Seq<char>) -> Seq<Seq<char>> {
    seq![
        "-jar"@,
        jar,
        "--nogui"@,
        "-s"@ + decimal(c.max_players as nat),
        "-P"@ + c.plugins_directory_name,
        "-W"@ + c.worlds_directory_name,
        "-p"@ + decimal(c.port as nat),
    ]
}

/// The arguments that Java is started with: the heap, at most and at
/// first the configured number of GiB; the fixed options; the options of
/// the collector; the options of the server.
pub open spec fn arguments(c: Configuration, jar: Seq<char>) -> Seq<Seq<char>> {
    seq!["-Xmx"@ + decimal(c.memory as nat) + "G"@, "-Xms"@ + decimal(c.memory as nat) + "G"@]
        + fixed_options() + heap_options(c.memory) + server_options(c, jar)
}

/// Appends a text to the arguments.
fn push_text(list: &mut Vec<String>, text: &str)
    ensures
        string_views(final(list)@) == string_views(old(list)@).push(text@),
{
    list.push(String::from_str(text));
}

/// Appends to the arguments an option made of a flag, a number and
/// something behind it.
fn push_number(list: &mut Vec<String>, flag: &str, number: u32, unit: &str)
    ensures
        string_views(final(list)@) == string_views(old(list)@).push(flag@ + decimal(number as nat) + unit@),
{
    let digits = format_number(number);
    let mut option = String::from_str(flag);
    option.append(text_of(&digits).as_str());
    option.append(unit);
    push_text(list, option.as_str());
}

/// Appends to the arguments an option made of a flag and a text.
fn push_pair(list: &mut Vec<String>, flag: &str, text: &str)
    ensures
        string_views(final(list)@) == string_views(old(list)@).push(flag@ + text@),
{
    let mut option = String::from_str(flag);
    option.append(text);
    push_text(list, option.as_str());
}

/// The arguments to start the server with, for the artifact at `jar`.
pub fn launch_arguments(config: &ConfigFileData, jar: &str) -> (r: Vec<String>)
    ensures
        string_views(r@) == arguments(config@, jar@),
{
    proof {
        reveal_strlit("");
    }
    let mut r: Vec<String> = Vec::new();
    push_number(&mut r, "-Xmx", config.memory as u32, "G");
    push_number(&mut r, "-Xms", config.memory as u32, "G");
    push_text(&mut r, "-XX:+ParallelRefProcEnabled");
    push_text(&mut r, "-XX:MaxGCPauseMillis=200");
    push_text(&mut r, "-XX:+UnlockExperimentalVMOptions");
    push_text(&mut r, "-XX:+DisableExplicitGC");
    push_text(&mut r, "-XX:+AlwaysPreTouch");
    push_text(&mut r, "-XX:G1HeapWastePercent=5");
    push_text(&mut r, "-XX:G1MixedGCCountTarget=4");
    push_text(&mut r, "-XX:G1MixedGCLiveThresholdPercent=90");
    push_text(&mut r, "-XX:G1RSetUpdatingPauseTimePercent=5");
    push_text(&mut r, "-XX:SurvivorRatio=32");
    push_text(&mut r, "-XX:+PerfDisableSharedMem");
    push_text(&mut r, "-XX:MaxTenuringThreshold=1");
    push_text(&mut r, "-Dusing.aikars.flags=https://mcflags.emc.gs");
    push_text(&mut r, "-Daikars.new.flags=true");
    push_text(&mut r, "-Dfile.encoding=UTF-8");
    push_text(&mut r, "-Dcom.mojang.eula.agree=true");
    if config.memory < LARGE_HEAP {
        push_text(&mut r, "-XX:G1NewSizePercent=30");
        push_text(&mut r, "-XX:G1MaxNewSizePercent=40");
        push_text(&mut r, "-XX:G1HeapRegionSize=8M");
        push_text(&mut r, "-XX:G1ReservePercent=20");
        push_text(&mut r, "-XX:InitiatingHeapOccupancyPercent=15");
    } else {
        push_text(&mut r, "-XX:G1NewSizePercent=40");
        push_text(&mut r, "-XX:G1MaxNewSizePercent=50");
        push_text(&mut r, "-XX:G1HeapRegionSize=16M");
        push_text(&mut r, "-XX:G1ReservePercent=15");
        push_text(&mut r, "-XX:InitiatingHeapOccupancyPercent=20");
    }
    push_text(&mut r, "-jar");
    push_text(&mut r, jar);
    push_text(&mut r, "--nogui");
    push_number(&mut r, "-s", config.max_players as u32, "");
    push_pair(&mut r, "-P", config.plugins_directory_name.as_str());
    push_pair(&mut r, "-W", config.worlds_directory_name.as_str());
    push_number(&mut r, "-p", config.port as u32, "");
    r
}

} // verus!
