use vstd::prelude::*;

verus! {

/// The editor to run when neither an explicit editor nor `$VISUAL` nor `$EDITOR` names one.
pub const DEFAULT_EDITOR: &'static str = "vi";

/// The editor to run: the one given explicitly, else `$VISUAL`, else `$EDITOR`, else `fallback`
/// (which callers set to [`DEFAULT_EDITOR`]).
pub fn select_editor<T>(input: Option<T>, visual: Option<T>, editor: Option<T>, fallback: T) -> (chosen: T)
    ensures
        chosen == match (input, visual, editor) {
            (Some(given), _, _) => given,
            (None, Some(given), _) => given,
            (None, None, Some(given)) => given,
            (None, None, None) => fallback,
        },
{
    match input {
        Some(given) => given,
        None => match visual {
            Some(given) => given,
            None => match editor {
                Some(given) => given,
                None => fallback,
            },
        },
    }
}

} // verus!
