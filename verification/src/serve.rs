//! The computable parts of serving a resolved person: the outward redirect
//! path for a redirect action, and the content variant chosen by whether
//! today is the person's birthday. Building the HTTP response around these
//! values is the serving collaborator's job.

use vstd::prelude::*;
use vstd::string::StringExecFns;

verus! {

/// The outward-facing redirect path for a redirect target: the target name
/// framed by the fixed path prefix and suffix.
pub fn redirect_path(target: &str) -> (r: String)
    ensures
        r@ == "/is-it-"@ + target@ + "-birthday"@,
{
    let mut s = String::from_str("/is-it-");
    s.append(target);
    s.append("-birthday");
    s
}

/// The content variant to serve: the affirmative directory when today is the
/// person's birthday, the negative one otherwise.
pub fn variant_dir(is_birthday: bool) -> (r: &'static str)
    ensures
        r@ == if is_birthday {
            "yes/"@
        } else {
            "no/"@
        },
{
    if is_birthday {
        "yes/"
    } else {
        "no/"
    }
}

} // verus!
