//! Where the templates of the components are read from.
use vstd::prelude::*;

use crate::text::append_str;

verus! {

/// The path of the template file of the component `name`:
/// `src/components/<name>.aml`.
pub open spec fn template_path(name: Seq<char>) -> Seq<char> {
    "src/components/"@ + name + ".aml"@
}

/// The path of the template file of the component `name`.
pub fn template(name: &str) -> (r: String)
    ensures
        r@ == template_path(name@),
{
    let mut r = "src/components/".to_owned();
    append_str(&mut r, name);
    append_str(&mut r, ".aml");
    r
}

} // verus!
