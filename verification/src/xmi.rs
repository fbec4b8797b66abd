//! XMI, the OMG's XML interchange format for MOF-based models.

use vstd::prelude::*;
use vstd::utf8::valid_utf8;
use vstd::utf8::decode_utf8;
use crate::format::{
    concat_str, contains_seq, contains_str, utf8_text, FormatCapability, InterchangeError,
    ModelFormat,
};

verus! {

/// The XMI format.
#[derive(Debug, Clone, Copy)]
pub struct Xmi;

/// Whether `text` names an XMI root or a SysML or KerML namespace root.
pub open spec fn has_xmi_root(text: Seq<char>) -> bool {
    ||| contains_seq(text, "xmi:XMI"@)
    ||| contains_seq(text, "XMI"@)
    ||| contains_seq(text, "sysml:Namespace"@)
    ||| contains_seq(text, "kerml:Namespace"@)
}

impl ModelFormat for Xmi {
    fn name(&self) -> (r: &'static str)
        ensures
            r@ == "XMI"@,
    {
        "XMI"
    }

    fn extensions(&self) -> (r: &'static [&'static str])
        ensures
            r@.len() == 1,
            r@[0]@ == "xmi"@,
    {
        &["xmi"]
    }

    fn mime_type(&self) -> (r: &'static str)
        ensures
            r@ == "application/xmi+xml"@,
    {
        "application/xmi+xml"
    }

    fn capabilities(&self) -> (r: FormatCapability)
        ensures
            r.read && r.write && r.streaming && r.lossless,
    {
        FormatCapability::full()
    }

    /// Accepts UTF-8 text that mentions an XMI root or a SysML or KerML
    /// namespace root.
    fn validate(&self, input: &[u8]) -> (r: Result<(), InterchangeError>)
        ensures
            !valid_utf8(input@) ==> (r matches Err(InterchangeError::Xml(m))
                && m@.len() >= 15 && m@.subrange(0, 15) == "Invalid UTF-8: "@),
            valid_utf8(input@) && has_xmi_root(decode_utf8(input@)) ==> r is Ok,
            valid_utf8(input@) && !has_xmi_root(decode_utf8(input@)) ==> (r matches Err(
                InterchangeError::Xml(m)) && m@ == "Missing XMI/SysML root element"@),
    {
        match utf8_text(input) {
            Err(e) => {
                let m = concat_str("Invalid UTF-8: ", &e);
                proof {
                    reveal_strlit("Invalid UTF-8: ");
                    assert(m@.subrange(0, 15) =~= "Invalid UTF-8: "@);
                }
                Err(InterchangeError::Xml(m))
            },
            Ok(content) => {
                if !contains_str(content, "xmi:XMI") && !contains_str(content, "XMI")
                    && !contains_str(content, "sysml:Namespace") && !contains_str(
                    content,
                    "kerml:Namespace",
                ) {
                    Err(InterchangeError::xml("Missing XMI/SysML root element"))
                } else {
                    Ok(())
                }
            },
        }
    }
}

} // verus!
