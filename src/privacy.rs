//! The privacy gate: whether keystrokes and clipboard content of the
//! focused target may be captured.
use vstd::prelude::*;
use crate::strings::{ascii_lower, to_ascii_lower, same_text};

verus! {

pub open spec fn is_separator(c: char) -> bool {
    c == '\\' || c == '/'
}

/// The part of a path after its last separator.
pub open spec fn base_name(s: Seq<char>) -> Seq<char>
    decreases s.len(),
{
    if s.len() == 0 {
        s
    } else if is_separator(s.last()) {
        Seq::empty()
    } else {
        base_name(s.drop_last()).push(s.last())
    }
}

/// The executable's base name in ASCII lower case, the form in which
/// allow and block lists are compared.
pub open spec fn normalized_name(s: Seq<char>) -> Seq<char> {
    ascii_lower(base_name(s))
}

/// The base name of a process image path, in ASCII lower case.
pub fn normalize_process_name(process_name: &str) -> (r: String)
    ensures
        r@ == normalized_name(process_name@),
{
    let n = process_name.unicode_len();
    let mut start: usize = n;
    assert(process_name@.subrange(0, n as int) =~= process_name@);
    assert(process_name@.subrange(n as int, n as int) =~= Seq::<char>::empty());
    assert(base_name(process_name@) + Seq::<char>::empty() =~= base_name(process_name@));
    while start > 0 && !(process_name.get_char(start - 1) == '\\' || process_name.get_char(
        start - 1,
    ) == '/')
        invariant
            n == process_name@.len(),
            start <= n,
            base_name(process_name@) == base_name(process_name@.subrange(0, start as int))
                + process_name@.subrange(start as int, n as int),
        decreases start,
    {
        let ghost pre = process_name@.subrange(0, start as int);
        assert(pre.drop_last() =~= process_name@.subrange(0, start - 1));
        assert(process_name@.subrange(start - 1, n as int) =~= seq![pre.last()]
            + process_name@.subrange(start as int, n as int));
        assert(base_name(pre.drop_last()).push(pre.last()) + process_name@.subrange(
            start as int,
            n as int,
        ) =~= base_name(pre.drop_last()) + process_name@.subrange(start - 1, n as int));
        start = start - 1;
    }
    assert(base_name(process_name@.subrange(0, start as int)) =~= Seq::<char>::empty());
    assert(process_name@ =~= process_name@.subrange(0, n as int));
    let base = process_name.substring_char(start, n);
    to_ascii_lower(base)
}

/// Whether `list` holds an entry equal to `name`.
pub open spec fn listed(list: Seq<String>, name: Seq<char>) -> bool {
    exists|i: int| 0 <= i < list.len() && (#[trigger] list[i])@ == name
}

fn list_contains(list: &Vec<String>, name: &str) -> (r: bool)
    ensures
        r == listed(list@, name@),
{
    let mut i: usize = 0;
    while i < list.len()
        invariant
            i <= list@.len(),
            forall|j: int| 0 <= j < i ==> (#[trigger] list@[j])@ != name@,
        decreases list@.len() - i,
    {
        if same_text(list[i].as_str(), name) {
            return true;
        }
        i = i + 1;
    }
    false
}

/// Whether a process is on the block list; an unknown process is not.
pub open spec fn blocked(blocklist: Seq<String>, name: Option<Seq<char>>) -> bool {
    blocklist.len() > 0 && match name {
        Some(n) => listed(blocklist, normalized_name(n)),
        None => false,
    }
}

/// Whether a process passes the allow list: every process does when the
/// list is empty, otherwise only a listed one, never an unknown one.
pub open spec fn allowed(allowlist: Seq<String>, name: Option<Seq<char>>) -> bool {
    allowlist.len() == 0 || match name {
        Some(n) => listed(allowlist, normalized_name(n)),
        None => false,
    }
}

pub open spec fn name_view(name: Option<&str>) -> Option<Seq<char>> {
    match name {
        Some(n) => Some(n@),
        None => None,
    }
}

/// What the accessibility service reports of the focused element.
#[derive(Clone, Copy, Debug, PartialEq, Eq, Structural)]
pub struct FocusInfo {
    pub has_keyboard_focus: bool,
    pub is_password: bool,
    /// The control is an edit or document control.
    pub is_text_control: bool,
}

/// The capture policy: allow and block lists (normalised names) and
/// whether text capture needs a focused, non-password text control.
#[derive(Clone, Debug)]
pub struct PrivacyPolicy {
    pub safe_text_only: bool,
    pub allowlist: Vec<String>,
    pub blocklist: Vec<String>,
}

impl PrivacyPolicy {
    pub open spec fn permits_process(&self, name: Option<Seq<char>>) -> bool {
        !blocked(self.blocklist@, name) && allowed(self.allowlist@, name)
    }

    /// Text capture: the process must be permitted and, in safe-text-only
    /// mode, the accessibility query must have succeeded and report a
    /// focused text control that is not a password field.
    pub open spec fn permits_text(&self, name: Option<Seq<char>>, focus: Option<FocusInfo>) -> bool {
        self.permits_process(name) && (!self.safe_text_only || match focus {
            Some(f) => f.has_keyboard_focus && !f.is_password && f.is_text_control,
            None => false,
        })
    }

    pub fn process_is_blocked(&self, process_name: Option<&str>) -> (r: bool)
        ensures
            r == blocked(self.blocklist@, name_view(process_name)),
    {
        if self.blocklist.len() == 0 {
            return false;
        }
        match process_name {
            Some(name) => {
                let normalized = normalize_process_name(name);
                list_contains(&self.blocklist, normalized.as_str())
            },
            None => false,
        }
    }

    pub fn process_is_allowed(&self, process_name: Option<&str>) -> (r: bool)
        ensures
            r == allowed(self.allowlist@, name_view(process_name)),
    {
        if self.allowlist.len() == 0 {
            return true;
        }
        match process_name {
            Some(name) => {
                let normalized = normalize_process_name(name);
                list_contains(&self.allowlist, normalized.as_str())
            },
            None => false,
        }
    }

    /// Clipboard capture is decided per process only.
    pub fn should_capture_clipboard(&self, process_name: Option<&str>) -> (r: bool)
        ensures
            r == self.permits_process(name_view(process_name)),
    {
        !self.process_is_blocked(process_name) && self.process_is_allowed(process_name)
    }

    /// Text capture for the focused target; `focus` is `None` when the
    /// accessibility service could not be queried.
    pub fn should_capture_text(&self, process_name: Option<&str>, focus: Option<FocusInfo>) -> (r:
        bool)
        ensures
            r == self.permits_text(name_view(process_name), focus),
    {
        if self.process_is_blocked(process_name) {
            return false;
        }
        if !self.process_is_allowed(process_name) {
            return false;
        }
        if !self.safe_text_only {
            return true;
        }
        match focus {
            Some(f) => f.has_keyboard_focus && !f.is_password && f.is_text_control,
            None => false,
        }
    }
}

} // verus!
