//! Trusted interface to the native compiler driver (the `cc` crate).
//!
//! The driver is modelled by four abstractions over the builder's state:
//! [`defines_of`], the multiset of (symbol, optional value) preprocessor
//! definitions it has been given; [`files_of`], the multiset of source file
//! paths it has been given; [`warnings_of`], its warning toggle; and
//! [`out_dir_of`], its output directory. Each wrapper states, against `cc`'s
//! own source, how the call changes or preserves those; everything else
//! about the driver (flags, probing, the compilation itself) stays opaque.

use vstd::multiset::Multiset;
use vstd::prelude::*;

verus! {

#[verifier::external_type_specification]
#[verifier::external_body]
pub struct ExCcBuild(cc::Build);

#[verifier::external_type_specification]
#[verifier::external_body]
pub struct ExCcError(cc::Error);

/// The preprocessor definitions the driver has accumulated, as a multiset of
/// (symbol, optional value) pairs.
pub uninterp spec fn defines_of(b: cc::Build) -> Multiset<(Seq<char>, Option<Seq<char>>)>;

/// The source file paths the driver has been given to compile.
pub uninterp spec fn files_of(b: cc::Build) -> Multiset<Seq<char>>;

/// The driver's warning toggle: unset until chosen, then the chosen value.
pub uninterp spec fn warnings_of(b: cc::Build) -> Option<bool>;

/// The driver's output directory: unset until chosen, then the chosen path.
pub uninterp spec fn out_dir_of(b: cc::Build) -> Option<Seq<char>>;

/// The contents of an optional definition value.
pub open spec fn spec_value_view(value: Option<&str>) -> Option<Seq<char>> {
    match value {
        Some(v) => Some(v@),
        None => None,
    }
}

/// Relies on `cc::Build::new`: a fresh builder holds no definitions and no
/// files, and neither a warning choice nor an output directory yet.
#[verifier::external_body]
pub fn driver_new() -> (b: cc::Build)
    ensures
        defines_of(b) == Multiset::<(Seq<char>, Option<Seq<char>>)>::empty(),
        files_of(b) == Multiset::<Seq<char>>::empty(),
        warnings_of(b) == None::<bool>,
        out_dir_of(b) == None::<Seq<char>>,
{
    cc::Build::new()
}

/// Relies on `cc::Build::define`: it appends exactly the given
/// (symbol, optional value) pair to the builder's definition list and
/// touches nothing else that is modelled.
#[verifier::external_body]
pub fn driver_define(b: &mut cc::Build, symbol: &str, value: Option<&str>)
    ensures
        defines_of(*final(b)) == defines_of(*old(b)).insert(
            (symbol@, spec_value_view(value)),
        ),
        files_of(*final(b)) == files_of(*old(b)),
        warnings_of(*final(b)) == warnings_of(*old(b)),
        out_dir_of(*final(b)) == out_dir_of(*old(b)),
{
    b.define(symbol, value);
}

/// Relies on `cc::Build::file`: it appends exactly the given path to the
/// builder's file list and touches nothing else that is modelled.
#[verifier::external_body]
pub fn driver_file(b: &mut cc::Build, path: &str)
    ensures
        files_of(*final(b)) == files_of(*old(b)).insert(path@),
        defines_of(*final(b)) == defines_of(*old(b)),
        warnings_of(*final(b)) == warnings_of(*old(b)),
        out_dir_of(*final(b)) == out_dir_of(*old(b)),
{
    b.file(path);
}

/// Relies on `cc::Build::warnings`: it sets the warning toggle to the given
/// value and touches nothing else that is modelled.
#[verifier::external_body]
pub fn driver_warnings(b: &mut cc::Build, enable: bool)
    ensures
        warnings_of(*final(b)) == Some(enable),
        defines_of(*final(b)) == defines_of(*old(b)),
        files_of(*final(b)) == files_of(*old(b)),
        out_dir_of(*final(b)) == out_dir_of(*old(b)),
{
    b.warnings(enable);
}

/// Relies on `cc::Build::out_dir`: it sets the output directory to the
/// given path and touches nothing else that is modelled.
#[verifier::external_body]
pub fn driver_out_dir(b: &mut cc::Build, path: &str)
    ensures
        out_dir_of(*final(b)) == Some(path@),
        defines_of(*final(b)) == defines_of(*old(b)),
        files_of(*final(b)) == files_of(*old(b)),
        warnings_of(*final(b)) == warnings_of(*old(b)),
{
    b.out_dir(path);
}

/// Relies on `cc::Build::try_compile`: it compiles the recorded files into a
/// static library named after `name`, reporting any toolchain failure as an
/// error. Whether it succeeds depends on the toolchain and filesystem, so
/// nothing is promised of the outcome.
#[verifier::external_body]
pub fn driver_compile(b: &cc::Build, name: &str) -> Result<(), cc::Error> {
    b.try_compile(name)
}

/// Relies on `cc::Error`'s `Display` implementation for the failure text.
#[verifier::external_body]
pub fn driver_error_message(e: &cc::Error) -> String {
    format!("{}", e)
}

} // verus!
