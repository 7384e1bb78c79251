use vstd::prelude::*;
use crate::paths::{join, join_of};

verus! {

/// Directory of the engine's installation inside the resource directory.
pub const ENGINE_DIR_NAME: &'static str = "philter";

/// Directory of the engine's configurations inside its installation.
pub const CONFIG_DIR_NAME: &'static str = "configs";

/// The configuration file handed to the engine.
pub const CONFIG_FILE_NAME: &'static str = "philter_one2024.json";

/// The engine's executable on Windows.
pub const WINDOWS_EXE_NAME: &'static str = "deidpipe.exe";

/// The engine's executable elsewhere.
pub const EXE_NAME: &'static str = "deidpipe";

/// Where the engine and its configuration are installed.
#[derive(Debug)]
pub struct EngineSetup {
    /// The installation directory, which is also the engine's working directory.
    pub dir: String,
    /// The executable.
    pub exe: String,
    /// The configuration file.
    pub config: String,
}

/// One run of the engine over a whole input directory.
#[derive(Debug)]
pub struct EngineCommand {
    pub program: String,
    pub working_dir: String,
    pub args: Vec<String>,
}

pub open spec fn exe_name_of(windows: bool) -> Seq<char> {
    if windows {
        WINDOWS_EXE_NAME@
    } else {
        EXE_NAME@
    }
}

pub open spec fn engine_dir_of(resource_dir: Seq<char>) -> Seq<char> {
    join_of(resource_dir, ENGINE_DIR_NAME@)
}

pub open spec fn config_path_of(resource_dir: Seq<char>) -> Seq<char> {
    join_of(join_of(engine_dir_of(resource_dir), CONFIG_DIR_NAME@), CONFIG_FILE_NAME@)
}

/// The arguments of one run: `-i <input_dir> -o <output_dir> -f <config>`.
pub open spec fn engine_args_of(input_dir: Seq<char>, output_dir: Seq<char>, config: Seq<char>) -> Seq<Seq<char>> {
    seq!["-i"@, input_dir, "-o"@, output_dir, "-f"@, config]
}

/// Whether `c` runs the engine installed as `setup` over `input_dir` into `output_dir`.
pub open spec fn is_engine_command(c: EngineCommand, setup: EngineSetup, input_dir: Seq<char>, output_dir: Seq<char>) -> bool {
    &&& c.program@ == setup.exe@
    &&& c.working_dir@ == setup.dir@
    &&& c.args@.map_values(|a: String| a@) == engine_args_of(input_dir, output_dir, setup.config@)
}

/// The file name of the engine's executable for the platform.
pub fn exe_name(windows: bool) -> (r: &'static str)
    ensures
        r@ == exe_name_of(windows),
{
    if windows {
        WINDOWS_EXE_NAME
    } else {
        EXE_NAME
    }
}

/// Where the engine, its executable and its configuration are found under the
/// installation's resource directory.
pub fn engine_setup(resource_dir: &str, windows: bool) -> (r: EngineSetup)
    ensures
        r.dir@ == engine_dir_of(resource_dir@),
        r.exe@ == join_of(engine_dir_of(resource_dir@), exe_name_of(windows)),
        r.config@ == config_path_of(resource_dir@),
{
    let dir = join(resource_dir, ENGINE_DIR_NAME);
    let exe = join(dir.as_str(), exe_name(windows));
    let configs = join(dir.as_str(), CONFIG_DIR_NAME);
    let config = join(configs.as_str(), CONFIG_FILE_NAME);
    EngineSetup { dir, exe, config }
}

/// The arguments of one run of the engine.
pub fn engine_args(input_dir: &str, output_dir: &str, config: &str) -> (r: Vec<String>)
    ensures
        r@.map_values(|a: String| a@) == engine_args_of(input_dir@, output_dir@, config@),
{
    let r = vec![
        String::from_str("-i"),
        String::from_str(input_dir),
        String::from_str("-o"),
        String::from_str(output_dir),
        String::from_str("-f"),
        String::from_str(config),
    ];
    assert(r@.map_values(|a: String| a@) =~= engine_args_of(input_dir@, output_dir@, config@));
    r
}

/// The command that runs the engine installed as `setup` over `input_dir`,
/// writing into `output_dir`, from the engine's own directory.
pub fn engine_command(setup: &EngineSetup, input_dir: &str, output_dir: &str) -> (r: EngineCommand)
    ensures
        is_engine_command(r, *setup, input_dir@, output_dir@),
{
    EngineCommand {
        program: setup.exe.clone(),
        working_dir: setup.dir.clone(),
        args: engine_args(input_dir, output_dir, setup.config.as_str()),
    }
}

} // verus!
