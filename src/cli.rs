//! Defaults of the command line.

use vstd::prelude::*;

verus! {

/// The kernel tree used when none is named.
pub const DEFAULT_KERNEL_DIR: &'static str = "/usr/src/linux/";

/// The kernel tree to work on: the one named, else the default.
pub fn kernel_dir(arg: Option<String>) -> (r: String)
    ensures
        arg is Some ==> r@ == arg->Some_0@,
        arg is None ==> r@ == DEFAULT_KERNEL_DIR@,
{
    match arg {
        Some(dir) => dir,
        None => String::from_str(DEFAULT_KERNEL_DIR),
    }
}

} // verus!
