//! Declaration of the outside markup parser's node type, so that parsed
//! nodes can pass through the parse boundary.

use vstd::prelude::*;

verus! {

#[verifier::external_type_specification]
#[verifier::external_body]
pub struct ExNode(html_parser_rscx::Node);

} // verus!
