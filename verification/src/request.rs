//! What the caller asks for: which runtime, for which processor, where to put
//! it, what to install into it, and whether to pack the result.

use vstd::prelude::*;
use vstd::string::*;

verus! {

/// The processor that the runtime is built for.
#[derive(Clone, Copy, Debug, PartialEq, Eq, Structural)]
pub enum Architecture {
    Win32,
    Amd64,
    Arm64,
}

impl Architecture {
    /// The name by which downloads and directories refer to the processor.
    pub open spec fn name(self) -> Seq<char> {
        match self {
            Architecture::Win32 => "win32"@,
            Architecture::Amd64 => "amd64"@,
            Architecture::Arm64 => "arm64"@,
        }
    }

    /// The processor's name.
    pub fn as_str(&self) -> (name: &'static str)
        ensures
            name@ == self.name(),
    {
        match self {
            Architecture::Win32 => "win32",
            Architecture::Amd64 => "amd64",
            Architecture::Arm64 => "arm64",
        }
    }

    /// The processor called `name`, if there is one.
    pub fn parse(name: &str) -> (found: Option<Architecture>)
        ensures
            match found {
                Some(architecture) => name@ == architecture.name(),
                None => forall|architecture: Architecture| name@ != architecture.name(),
            },
    {
        let wanted = String::from_str(name);
        if wanted == String::from_str("win32") {
            Some(Architecture::Win32)
        } else if wanted == String::from_str("amd64") {
            Some(Architecture::Amd64)
        } else if wanted == String::from_str("arm64") {
            Some(Architecture::Arm64)
        } else {
            None
        }
    }
}

impl Default for Architecture {
    /// Where no processor is named, the runtime is fetched for `amd64`.
    fn default() -> (architecture: Architecture)
        ensures
            architecture == Architecture::Amd64,
    {
        Architecture::Amd64
    }
}

/// Where the packages to install are listed.
#[derive(Clone, Debug, PartialEq, Eq)]
pub enum DependencySource {
    /// Nothing is installed.
    Nothing,
    /// The path of a requirements file.
    RequirementsFile(String),
    /// Package specifiers, handed to the installer as one argument.
    InlineList(String),
}

impl DependencySource {
    /// A requirements file wins over an inline list; with neither, nothing is
    /// installed.
    pub open spec fn resolved(
        requirements: Option<String>,
        install: Option<String>,
    ) -> DependencySource {
        match requirements {
            Some(path) => DependencySource::RequirementsFile(path),
            None => match install {
                Some(list) => DependencySource::InlineList(list),
                None => DependencySource::Nothing,
            },
        }
    }

    /// Settles on one source of dependencies.
    pub fn resolve(requirements: Option<String>, install: Option<String>) -> (source:
        DependencySource)
        ensures
            source == DependencySource::resolved(requirements, install),
    {
        match requirements {
            Some(path) => DependencySource::RequirementsFile(path),
            None => match install {
                Some(list) => DependencySource::InlineList(list),
                None => DependencySource::Nothing,
            },
        }
    }

    /// Whether anything is to be installed.
    pub open spec fn is_wanted(&self) -> bool {
        !(self is Nothing)
    }

    /// Whether anything is to be installed.
    pub fn wanted(&self) -> (yes: bool)
        ensures
            yes == self.is_wanted(),
    {
        match self {
            DependencySource::Nothing => false,
            _ => true,
        }
    }
}

/// The directory that a bundle goes to when the caller names none.
pub open spec fn default_destination(version: Seq<char>, cpu: Seq<char>) -> Seq<char> {
    "./python-"@ + version + "-embed-"@ + cpu
}

/// One bundle to assemble.
#[derive(Clone, Debug, PartialEq, Eq)]
pub struct DistributionRequest {
    /// The runtime's version, as the caller wrote it.
    pub version: String,
    pub architecture: Architecture,
    /// The directory that will hold the bundle. It must not exist yet.
    pub destination: String,
    pub dependencies: DependencySource,
    /// Whether the finished bundle is packed into one archive.
    pub compress: bool,
}

impl DistributionRequest {
    /// Fills in what the caller left open: `amd64` for the processor, and a
    /// directory under the current one named after version and processor.
    pub fn new(
        version: String,
        architecture: Option<Architecture>,
        destination: Option<String>,
        requirements: Option<String>,
        install: Option<String>,
        compress: bool,
    ) -> (request: DistributionRequest)
        ensures
            request.version == version,
            request.architecture == match architecture {
                Some(given) => given,
                None => Architecture::Amd64,
            },
            request.destination@ == match destination {
                Some(given) => given@,
                None => default_destination(version@, request.architecture.name()),
            },
            request.dependencies == DependencySource::resolved(requirements, install),
            request.compress == compress,
    {
        let architecture = match architecture {
            Some(given) => given,
            None => Architecture::default(),
        };
        let destination = match destination {
            Some(given) => given,
            None => {
                let mut path = String::from_str("./python-");
                path.append(version.as_str());
                path.append("-embed-");
                path.append(architecture.as_str());
                path
            },
        };
        let dependencies = DependencySource::resolve(requirements, install);
        DistributionRequest { version, architecture, destination, dependencies, compress }
    }
}

} // verus!
