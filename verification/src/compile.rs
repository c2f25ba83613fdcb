//! The build entry point: one compilation of the bundled sources.
//!
//! A [`Location`] names the directory holding the amalgamated C source and
//! companion header, and the output directory for the compiled artifact.
//! [`build`] configures the native driver with the source file and every
//! rendered definition of a [`Config`], then invokes the compilation; a
//! [`Build`] records the location a successful compilation used.

use vstd::prelude::*;
use vstd::string::StringExecFns;

use crate::config::Config;
use crate::driver::{
    defines_of, driver_compile, driver_error_message, driver_file, driver_new, driver_out_dir,
    driver_warnings, files_of, out_dir_of, warnings_of,
};

verus! {

/// The source and target directories for one [`build`].
#[derive(Clone, Debug, PartialEq, Eq)]
pub struct Location {
    src: String,
    dest: String,
}

impl Location {
    /// The directory holding the bundled sources.
    pub closed spec fn spec_src(&self) -> Seq<char> {
        self.src@
    }

    /// The output directory for the compiled artifact.
    pub closed spec fn spec_dest(&self) -> Seq<char> {
        self.dest@
    }

    /// Create a build location from the directory holding the bundled
    /// sources and the destination directory for the build.
    pub fn new(src: String, dest: String) -> (r: Location)
        ensures
            r.spec_src() == src@,
            r.spec_dest() == dest@,
    {
        Location { src, dest }
    }

    /// The path to the amalgamated C source file.
    pub fn input(&self) -> (r: String)
        ensures
            r@ == self.spec_src() + "/sqlite3.c"@,
    {
        let mut p = self.src.clone();
        p.append("/sqlite3.c");
        p
    }

    /// The path to the companion header file.
    pub fn header(&self) -> (r: String)
        ensures
            r@ == self.spec_src() + "/sqlite3.h"@,
    {
        let mut p = self.src.clone();
        p.append("/sqlite3.h");
        p
    }

    /// The build's target directory.
    pub fn dest(&self) -> (r: String)
        ensures
            r@ == self.spec_dest(),
    {
        self.dest.clone()
    }

    /// The source files of the build: the amalgamated C file and its header.
    pub fn sources(&self) -> (r: Vec<String>)
        ensures
            r@.map_values(|p: String| p@) == seq![
                self.spec_src() + "/sqlite3.c"@,
                self.spec_src() + "/sqlite3.h"@,
            ],
    {
        let mut r: Vec<String> = Vec::new();
        r.push(self.input());
        r.push(self.header());
        proof {
            assert(r@.map_values(|p: String| p@) =~= seq![
                self.spec_src() + "/sqlite3.c"@,
                self.spec_src() + "/sqlite3.h"@,
            ]);
        }
        r
    }
}

/// The output of a completed [`build`], wrapping the [`Location`] it used.
#[derive(Clone, Debug, PartialEq, Eq)]
pub struct BuildOutput {
    location: Location,
}

impl BuildOutput {
    /// The location the build ran against.
    pub closed spec fn spec_location(&self) -> Location {
        self.location
    }

    fn new(location: Location) -> (r: BuildOutput)
        ensures
            r.spec_location() == location,
    {
        BuildOutput { location }
    }

    /// The `.c` source files that were compiled: exactly the amalgamated
    /// source file.
    pub fn sources(&self) -> (r: Vec<String>)
        ensures
            r@.map_values(|p: String| p@) == seq![
                self.spec_location().spec_src() + "/sqlite3.c"@,
            ],
    {
        let mut r: Vec<String> = Vec::new();
        r.push(self.location.input());
        proof {
            assert(r@.map_values(|p: String| p@) =~= seq![
                self.spec_location().spec_src() + "/sqlite3.c"@,
            ]);
        }
        r
    }

    /// The build [`Location`].
    pub fn location(&self) -> (r: &Location)
        ensures
            *r == self.spec_location(),
    {
        &self.location
    }
}

/// The native driver reported a compilation failure; the build cannot
/// proceed.
#[derive(Debug)]
pub struct BuildError {
    pub message: String,
}

/// Configure the native driver for one build. Afterwards the driver holds
/// exactly the old definitions plus the configuration's rendered definition
/// set, exactly the old files plus the amalgamated source file, warnings
/// turned off, and the location's destination as its output directory.
pub fn configure(driver: &mut cc::Build, location: &Location, config: &Config)
    ensures
        defines_of(*final(driver)) == defines_of(*old(driver)).add(config.defs()),
        files_of(*final(driver)) == files_of(*old(driver)).insert(
            location.spec_src() + "/sqlite3.c"@,
        ),
        warnings_of(*final(driver)) == Some(false),
        out_dir_of(*final(driver)) == Some(location.spec_dest()),
{
    let input = location.input();
    driver_file(driver, input.as_str());
    config.apply(driver);
    driver_warnings(driver, false);
    let dest = location.dest();
    driver_out_dir(driver, dest.as_str());
}

/// Build the bundled sources at `location` under the given configuration.
///
/// A fresh driver is configured with the source file and exactly the
/// configuration's rendered definitions, then asked to compile. On success
/// the returned [`Build`] wraps the location that was used; a failure of the
/// native toolchain is reported verbatim as a [`BuildError`].
pub fn build(location: Location, config: &Config) -> (r: Result<BuildOutput, BuildError>)
    ensures
        r matches Ok(b) ==> b.spec_location() == location,
{
    let mut driver = driver_new();
    configure(&mut driver, &location, config);
    match driver_compile(&driver, "sqlite3") {
        Ok(_) => Ok(BuildOutput::new(location)),
        Err(e) => Err(BuildError { message: driver_error_message(&e) }),
    }
}

} // verus!
