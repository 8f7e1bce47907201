//! Which log file is the current one. Looking at the disk is the host's
//! part.

use crate::utils::text::{decimal, decimal_text, wrapped};
use vstd::prelude::*;
use vstd::string::*;

verus! {

/// How many rotated log files are looked for.
pub const ROTATED_LOG_FILES: usize = 5;

/// The name of the `n`-th rotated log file.
pub open spec fn rotated_name(n: int) -> Seq<char> {
    "app_"@ + decimal_text(n) + ".log"@
}

/// Whether `i` is the place of the first rotated file that exists.
pub open spec fn is_first_existing(rotated_exists: Seq<bool>, i: int) -> bool {
    &&& 0 <= i < rotated_exists.len()
    &&& i < ROTATED_LOG_FILES
    &&& rotated_exists[i]
    &&& forall|j: int| 0 <= j < i ==> !rotated_exists[j]
}

/// The name of the main log file.
pub fn main_log_file_name() -> (name: String)
    ensures
        name@ == "app.log"@,
{
    String::from_str("app.log")
}

/// The name of the `n`-th rotated log file, `n` from 1 on.
fn rotated_log_file_name(n: usize) -> (name: String)
    requires
        1 <= n <= ROTATED_LOG_FILES,
    ensures
        name@ == rotated_name(n as int),
{
    let number = decimal(n as i32);
    wrapped("app_", number.as_str(), ".log")
}

/// The name of the current log file: the main file, or, where the main
/// file is missing, the first of the rotated files that exists.
/// `rotated_exists` says of each rotated file, the first one first, whether
/// it exists; files beyond the fifth are not looked at.
pub fn current_log_file_name(main_exists: bool, rotated_exists: &Vec<bool>) -> (name: String)
    ensures
        main_exists ==> name@ == "app.log"@,
        !main_exists && (exists|i: int| is_first_existing(rotated_exists@, i)) ==> exists|i: int|
            is_first_existing(rotated_exists@, i) && name@ == rotated_name(i + 1),
        !main_exists && !(exists|i: int| is_first_existing(rotated_exists@, i)) ==> name@
            == "app.log"@,
{
    if !main_exists {
        let mut i: usize = 0;
        while i < rotated_exists.len() && i < ROTATED_LOG_FILES
            invariant
                !main_exists,
                i <= rotated_exists.len(),
                i <= ROTATED_LOG_FILES,
                forall|j: int| 0 <= j < i ==> !rotated_exists@[j],
            decreases rotated_exists.len() - i,
        {
            if rotated_exists[i] {
                assert(is_first_existing(rotated_exists@, i as int));
                return rotated_log_file_name(i + 1);
            }
            i += 1;
        }
        assert forall|k: int| !is_first_existing(rotated_exists@, k) by {}
    }
    main_log_file_name()
}

} // verus!
