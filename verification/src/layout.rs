//! The names that a bundle is built from: where the runtime comes from, what
//! its files are called, and how the external programs are invoked.

use vstd::prelude::*;
use vstd::string::*;
use crate::action::{Action, ActionView};
use crate::request::DependencySource;
use crate::text::{backslashed, last_piece, last_segment, to_backslashes};

verus! {

/// The file name of the embeddable runtime archive.
pub open spec fn spec_archive_name(version: Seq<char>, cpu: Seq<char>) -> Seq<char> {
    "python-"@ + version + "-embed-"@ + cpu + ".zip"@
}

/// The address from which the embeddable runtime archive is fetched.
pub open spec fn spec_archive_url(version: Seq<char>, cpu: Seq<char>) -> Seq<char> {
    "https://www.python.org/ftp/python/"@ + version + "/"@ + spec_archive_name(version, cpu)
}

/// The tag that the runtime's own files carry: `python` with major and minor
/// version run together.
pub open spec fn spec_runtime_tag(major: Seq<char>, minor: Seq<char>) -> Seq<char> {
    "python"@ + major + minor
}

/// The path of the runtime's module search file inside the bundle.
pub open spec fn spec_search_path_file(
    destination: Seq<char>,
    major: Seq<char>,
    minor: Seq<char>,
) -> Seq<char> {
    destination + "/"@ + spec_runtime_tag(major, minor) + "._pth"@
}

/// What the module search file holds: the standard library's archive, the
/// bundle's own directory, and the line that lets installed packages be found.
pub open spec fn spec_search_path_body(major: Seq<char>, minor: Seq<char>) -> Seq<char> {
    spec_runtime_tag(major, minor)
        + ".zip\n.\n\n# Uncomment to run site.main() automatically\nimport site"@
}

/// The address of the script that installs the package manager.
pub open spec fn spec_bootstrap_url() -> Seq<char> {
    "https://bootstrap.pypa.io/get-pip.py"@
}

/// Where that script is stored inside the bundle.
pub open spec fn spec_bootstrap_file(destination: Seq<char>) -> Seq<char> {
    destination + "/get-pip.py"@
}

/// The bundle's own interpreter, as the command shell is to see it.
pub open spec fn spec_interpreter(destination: Seq<char>) -> Seq<char> {
    backslashed(destination) + "\\python.exe"@
}

/// The stored script, as the command shell is to see it.
pub open spec fn spec_bootstrap_script(destination: Seq<char>) -> Seq<char> {
    backslashed(destination) + "\\get-pip.py"@
}

/// The name of the archive that a packed bundle ends up in: the last segment
/// of the destination, with `.zip` behind it.
pub open spec fn spec_bundle_archive(destination: Seq<char>) -> Seq<char> {
    last_piece(backslashed(destination)) + ".zip"@
}

/// Unpacking the runtime archive into the destination.
pub open spec fn spec_unpack(archive: Seq<char>, destination: Seq<char>) -> ActionView {
    ActionView::Run {
        program: "tar"@,
        arguments: seq!["-xf"@, archive, "-C"@, destination],
    }
}

/// Running the stored script with the bundle's own interpreter.
pub open spec fn spec_bootstrap(destination: Seq<char>) -> ActionView {
    ActionView::Run {
        program: "cmd"@,
        arguments: seq!["/C"@, spec_interpreter(destination), spec_bootstrap_script(destination)],
    }
}

/// Installing the dependencies with the bundle's package manager. A
/// requirements file is named with backslashes; an inline list is handed on
/// as it is, as one argument. With nothing to install there is nothing to run.
pub open spec fn spec_install(destination: Seq<char>, source: DependencySource) -> ActionView {
    match source {
        DependencySource::RequirementsFile(path) => ActionView::Run {
            program: "cmd"@,
            arguments: seq![
                "/C"@,
                spec_interpreter(destination),
                "-m"@,
                "pip"@,
                "install"@,
                "-r"@,
                backslashed(path@),
            ],
        },
        DependencySource::InlineList(list) => ActionView::Run {
            program: "cmd"@,
            arguments: seq![
                "/C"@,
                spec_interpreter(destination),
                "-m"@,
                "pip"@,
                "install"@,
                list@,
            ],
        },
        DependencySource::Nothing => ActionView::Stop,
    }
}

/// Packing all that the bundle holds into one archive in the current directory.
pub open spec fn spec_pack(destination: Seq<char>) -> ActionView {
    ActionView::Run {
        program: "tar.exe"@,
        arguments: seq![
            "-C"@,
            backslashed(destination),
            "-caf"@,
            spec_bundle_archive(destination),
            "*"@,
        ],
    }
}

/// The file name of the embeddable runtime archive.
pub fn archive_name(version: &str, cpu: &str) -> (name: String)
    ensures
        name@ == spec_archive_name(version@, cpu@),
{
    let mut name = String::from_str("python-");
    name.append(version);
    name.append("-embed-");
    name.append(cpu);
    name.append(".zip");
    name
}

/// The address from which the embeddable runtime archive is fetched.
pub fn archive_url(version: &str, cpu: &str) -> (url: String)
    ensures
        url@ == spec_archive_url(version@, cpu@),
{
    let mut url = String::from_str("https://www.python.org/ftp/python/");
    url.append(version);
    url.append("/");
    let name = archive_name(version, cpu);
    url.append(name.as_str());
    url
}

/// The tag that the runtime's own files carry.
pub fn runtime_tag(major: &str, minor: &str) -> (tag: String)
    ensures
        tag@ == spec_runtime_tag(major@, minor@),
{
    let mut tag = String::from_str("python");
    tag.append(major);
    tag.append(minor);
    tag
}

/// The path of the runtime's module search file inside the bundle.
pub fn search_path_file(destination: &str, major: &str, minor: &str) -> (path: String)
    ensures
        path@ == spec_search_path_file(destination@, major@, minor@),
{
    let mut path = String::from_str(destination);
    path.append("/");
    let tag = runtime_tag(major, minor);
    path.append(tag.as_str());
    path.append("._pth");
    path
}

/// What the module search file holds.
pub fn search_path_body(major: &str, minor: &str) -> (body: String)
    ensures
        body@ == spec_search_path_body(major@, minor@),
{
    let mut body = runtime_tag(major, minor);
    body.append(".zip\n.\n\n# Uncomment to run site.main() automatically\nimport site");
    body
}

/// The address of the script that installs the package manager.
pub fn bootstrap_url() -> (url: String)
    ensures
        url@ == spec_bootstrap_url(),
{
    String::from_str("https://bootstrap.pypa.io/get-pip.py")
}

/// Where that script is stored inside the bundle.
pub fn bootstrap_file(destination: &str) -> (path: String)
    ensures
        path@ == spec_bootstrap_file(destination@),
{
    let mut path = String::from_str(destination);
    path.append("/get-pip.py");
    path
}

/// The bundle's own interpreter, as the command shell is to see it.
pub fn interpreter(destination: &str) -> (path: String)
    ensures
        path@ == spec_interpreter(destination@),
{
    let mut path = to_backslashes(destination);
    path.append("\\python.exe");
    path
}

/// The stored script, as the command shell is to see it.
pub fn bootstrap_script(destination: &str) -> (path: String)
    ensures
        path@ == spec_bootstrap_script(destination@),
{
    let mut path = to_backslashes(destination);
    path.append("\\get-pip.py");
    path
}

/// The name of the archive that a packed bundle ends up in.
pub fn bundle_archive(destination: &str) -> (name: String)
    ensures
        name@ == spec_bundle_archive(destination@),
{
    let windows = to_backslashes(destination);
    let mut name = last_segment(windows.as_str());
    name.append(".zip");
    name
}

/// Unpacking the runtime archive into the destination.
pub fn unpack(archive: &str, destination: &str) -> (action: Action)
    ensures
        action@ == spec_unpack(archive@, destination@),
{
    let mut arguments: Vec<String> = Vec::new();
    arguments.push(String::from_str("-xf"));
    arguments.push(String::from_str(archive));
    arguments.push(String::from_str("-C"));
    arguments.push(String::from_str(destination));
    assert(arguments.deep_view() =~= seq!["-xf"@, archive@, "-C"@, destination@]);
    Action::Run { program: String::from_str("tar"), arguments }
}

/// Running the stored script with the bundle's own interpreter.
pub fn bootstrap(destination: &str) -> (action: Action)
    ensures
        action@ == spec_bootstrap(destination@),
{
    let mut arguments: Vec<String> = Vec::new();
    arguments.push(String::from_str("/C"));
    arguments.push(interpreter(destination));
    arguments.push(bootstrap_script(destination));
    assert(arguments.deep_view() =~= seq![
        "/C"@,
        spec_interpreter(destination@),
        spec_bootstrap_script(destination@),
    ]);
    Action::Run { program: String::from_str("cmd"), arguments }
}

/// Installing the dependencies with the bundle's package manager.
pub fn install(destination: &str, source: &DependencySource) -> (action: Action)
    ensures
        action@ == spec_install(destination@, *source),
{
    let last = match source {
        DependencySource::Nothing => {
            return Action::Stop;
        },
        DependencySource::RequirementsFile(path) => to_backslashes(path.as_str()),
        DependencySource::InlineList(list) => list.clone(),
    };
    let mut arguments: Vec<String> = Vec::new();
    arguments.push(String::from_str("/C"));
    arguments.push(interpreter(destination));
    arguments.push(String::from_str("-m"));
    arguments.push(String::from_str("pip"));
    arguments.push(String::from_str("install"));
    if let DependencySource::RequirementsFile(_) = source {
        arguments.push(String::from_str("-r"));
        arguments.push(last);
        assert(arguments.deep_view() =~= seq![
            "/C"@,
            spec_interpreter(destination@),
            "-m"@,
            "pip"@,
            "install"@,
            "-r"@,
            backslashed(source->RequirementsFile_0@),
        ]);
    } else {
        arguments.push(last);
        assert(arguments.deep_view() =~= seq![
            "/C"@,
            spec_interpreter(destination@),
            "-m"@,
            "pip"@,
            "install"@,
            source->InlineList_0@,
        ]);
    }
    Action::Run { program: String::from_str("cmd"), arguments }
}

/// Packing all that the bundle holds into one archive in the current directory.
pub fn pack(destination: &str) -> (action: Action)
    ensures
        action@ == spec_pack(destination@),
{
    let mut arguments: Vec<String> = Vec::new();
    arguments.push(String::from_str("-C"));
    arguments.push(to_backslashes(destination));
    arguments.push(String::from_str("-caf"));
    arguments.push(bundle_archive(destination));
    arguments.push(String::from_str("*"));
    assert(arguments.deep_view() =~= seq![
        "-C"@,
        backslashed(destination@),
        "-caf"@,
        spec_bundle_archive(destination@),
        "*"@,
    ]);
    Action::Run { program: String::from_str("tar.exe"), arguments }
}

} // verus!
