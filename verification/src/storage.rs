//! Manages path finding.

use vstd::prelude::*;
use vstd::string::StringExecFns;

verus! {

/// The name of the storage directory.
pub const STORAGE_DIR_NAME: &'static str = "Mimic";

/// The name of the configuration file.
pub const CONFIG_FILE_NAME: &'static str = "config.json";

/// The name of the ComputerCraft jar file.
pub const CC_JAR_FILE_NAME: &'static str = "computercraft.jar";

/// The name of the Mimic jar file.
pub const MIMIC_JAR_FILE_NAME: &'static str = "mimic.jar";

/// The name of the ROM directory.
pub const ROM_DIR_NAME: &'static str = "rom";

/// The path of `name` inside `directory`.
pub open spec fn inside(directory: Seq<char>, name: Seq<char>) -> Seq<char> {
    directory + "/"@ + name
}

/// The path to the storage directory, for a home directory.
pub open spec fn storage_path(home: Seq<char>) -> Seq<char> {
    inside(inside(home, "Documents"@), STORAGE_DIR_NAME@)
}

/// The path to the resources folder, for the directory of the executable.
pub open spec fn resources_path(executable_directory: Seq<char>) -> Seq<char> {
    inside(inside(executable_directory, ".."@), "Resources"@)
}

/// The path of `name` inside `directory`.
pub fn join(directory: &str, name: &str) -> (path: String)
    ensures
        path@ == inside(directory@, name@),
{
    String::from_str(directory).concat("/").concat(name)
}

/// Returns the path to the ROM folder inside the storage directory.
pub fn rom(home: &str) -> (path: String)
    ensures
        path@ == inside(storage_path(home@), ROM_DIR_NAME@),
{
    let root = storage(home);
    join(root.as_str(), ROM_DIR_NAME)
}

/// Returns the path to the folder of programs inside the ROM folder.
pub fn programs(home: &str) -> (path: String)
    ensures
        path@ == inside(inside(storage_path(home@), ROM_DIR_NAME@), "programs"@),
{
    let root = rom(home);
    join(root.as_str(), "programs")
}

/// Returns the path to the resources folder, which lies beside the
/// directory of the executable.
pub fn resources(executable_directory: &str) -> (path: String)
    ensures
        path@ == resources_path(executable_directory@),
{
    let up = join(executable_directory, "..");
    join(up.as_str(), "Resources")
}

/// Returns the path to the storage directory.
pub fn storage(home: &str) -> (path: String)
    ensures
        path@ == storage_path(home@),
{
    let documents = join(home, "Documents");
    join(documents.as_str(), STORAGE_DIR_NAME)
}

/// Returns the path to the configuration file.
pub fn config(home: &str) -> (path: String)
    ensures
        path@ == inside(storage_path(home@), CONFIG_FILE_NAME@),
{
    let root = storage(home);
    join(root.as_str(), CONFIG_FILE_NAME)
}

/// Returns the classpath for the Java VM: the Mimic jar, then the
/// ComputerCraft jar, both in the resources folder.
pub fn classpath(resources: &str) -> (paths: Vec<String>)
    ensures
        paths.len() == 2,
        paths[0]@ == inside(resources@, MIMIC_JAR_FILE_NAME@),
        paths[1]@ == inside(resources@, CC_JAR_FILE_NAME@),
{
    let mut paths: Vec<String> = Vec::new();
    paths.push(join(resources, MIMIC_JAR_FILE_NAME));
    paths.push(join(resources, CC_JAR_FILE_NAME));
    paths
}

} // verus!
