use vstd::prelude::*;

verus! {

/// The line that `debug` hands to the debug log: the text and a newline.
pub fn debug_content(text: &str) -> (res: String)
    ensures
        res@ == text@ + seq!['\n'],
{
    let mut content = String::new();
    content.append(text);
    content.append("\n");
    proof {
        reveal_strlit("\n");
    }
    content
}

} // verus!
