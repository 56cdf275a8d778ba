use vstd::prelude::*;

use crate::controller::opt_view;

verus! {

/// An ADB device reported by the engine's device search.
#[derive(Debug, Clone)]
pub struct AdbDevice {
    pub name: String,
    pub adb_path: String,
    pub address: String,
    pub screencap_methods: u64,
    pub input_methods: u64,
    pub config: String,
}

/// A desktop window reported by the engine's window search.
#[derive(Debug, Clone)]
pub struct Win32Window {
    pub handle: u64,
    pub class_name: String,
    pub window_name: String,
}

/// Whether `regex::Regex::new` accepts a pattern.
pub uninterp spec fn pattern_compiles(pattern: Seq<char>) -> bool;

/// Whether a compiled pattern finds a match anywhere in a text.
pub uninterp spec fn pattern_matches(pattern: Seq<char>, text: Seq<char>) -> bool;

/// Relies on `regex::Regex::new`, which fails exactly on patterns it cannot
/// compile, and `Regex::is_match`, which tells whether the text holds a match.
#[verifier::external_body]
fn regex_outcome(pattern: &str, text: &str) -> (r: Option<bool>)
    ensures
        r is Some <==> pattern_compiles(pattern@),
        r matches Some(b) ==> b == pattern_matches(pattern@, text@),
{
    match regex::Regex::new(pattern) {
        Ok(re) => Some(re.is_match(text)),
        Err(_) => None,
    }
}

/// A text passes a filter that is absent or invalid; otherwise it passes
/// when the pattern matches it.
pub open spec fn passes_filter(pattern: Option<Seq<char>>, text: Seq<char>) -> bool {
    match pattern {
        None => true,
        Some(p) => !pattern_compiles(p) || pattern_matches(p, text),
    }
}

pub open spec fn window_kept(
    w: Win32Window,
    class_regex: Option<Seq<char>>,
    window_regex: Option<Seq<char>>,
) -> bool {
    passes_filter(class_regex, w.class_name@) && passes_filter(window_regex, w.window_name@)
}

/// The windows that pass both filters, in the order they were found.
pub open spec fn kept_windows(
    s: Seq<Win32Window>,
    class_regex: Option<Seq<char>>,
    window_regex: Option<Seq<char>>,
) -> Seq<Win32Window>
    decreases s.len(),
{
    if s.len() == 0 {
        Seq::empty()
    } else {
        let before = kept_windows(s.drop_last(), class_regex, window_regex);
        if window_kept(s.last(), class_regex, window_regex) {
            before.push(s.last())
        } else {
            before
        }
    }
}

/// Whether a text passes a present filter, given the filter's outcome:
/// `None` for an invalid pattern, which keeps every text, or whether the
/// pattern matched.
pub fn passes_on_outcome(outcome: Option<bool>) -> (r: bool)
    ensures
        r == (outcome != Some(false)),
{
    match outcome {
        None => true,
        Some(b) => b,
    }
}

fn passes(pattern: &Option<String>, text: &str) -> (r: bool)
    ensures
        r == passes_filter(opt_view(*pattern), text@),
{
    match pattern {
        None => true,
        Some(p) => passes_on_outcome(regex_outcome(p.as_str(), text)),
    }
}

/// Filters found windows by class name and window name patterns.
pub fn filter_windows(
    windows: &Vec<Win32Window>,
    class_regex: &Option<String>,
    window_regex: &Option<String>,
) -> (r: Vec<Win32Window>)
    ensures
        r@ == kept_windows(windows@, opt_view(*class_regex), opt_view(*window_regex)),
{
    let ghost c = opt_view(*class_regex);
    let ghost w = opt_view(*window_regex);
    let mut r: Vec<Win32Window> = Vec::new();
    let mut i: usize = 0;
    while i < windows.len()
        invariant
            i <= windows@.len(),
            c == opt_view(*class_regex),
            w == opt_view(*window_regex),
            r@ == kept_windows(windows@.subrange(0, i as int), c, w),
        decreases windows@.len() - i,
    {
        proof {
            assert(windows@.subrange(0, i as int + 1).drop_last() =~= windows@.subrange(0, i as int));
        }
        let win = &windows[i];
        if passes(class_regex, win.class_name.as_str()) && passes(
            window_regex,
            win.window_name.as_str(),
        ) {
            r.push(
                Win32Window {
                    handle: win.handle,
                    class_name: win.class_name.clone(),
                    window_name: win.window_name.clone(),
                },
            );
        }
        i = i + 1;
    }
    proof {
        assert(windows@.subrange(0, i as int) =~= windows@);
    }
    r
}

} // verus!
