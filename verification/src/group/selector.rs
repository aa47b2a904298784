//! Manual choice: the group uses the member that the user pointed at.
use vstd::prelude::*;
use vstd::string::StringExecFns;
use crate::error::ProxyError;
use crate::member::Member;

verus! {

/// Whether some member is called `name`.
pub open spec fn is_member(ms: Seq<Member>, name: Seq<char>) -> bool {
    exists|i: int| 0 <= i < ms.len() && (#[trigger] ms[i]).name@ == name
}

/// Whether `i` is the position of the first member called `name`.
pub open spec fn is_first_named(ms: Seq<Member>, name: Seq<char>, i: int) -> bool {
    &&& 0 <= i < ms.len()
    &&& ms[i].name@ == name
    &&& forall|j: int| 0 <= j < i ==> (#[trigger] ms[j]).name@ != name
}

/// The member that a pointer stands for among `len` members: the one it
/// points at, or the first if it points past the end.
pub open spec fn pointed(pointer: nat, len: nat) -> nat {
    if pointer < len {
        pointer
    } else {
        0
    }
}

/// The state of a manually switched group: a pointer at the chosen member.
/// It starts at the first member and moves only by an explicit choice.
#[derive(Debug)]
pub struct Selector {
    current: usize,
}

impl View for Selector {
    type V = nat;

    /// A selector is seen as the position it points at.
    closed spec fn view(&self) -> nat {
        self.current as nat
    }
}

impl Selector {
    /// A selector that points at the first member.
    pub fn new() -> (s: Selector)
        ensures
            s@ == 0,
    {
        Selector { current: 0 }
    }

    /// Points the group at the member called `name`; at the first of them if
    /// several are. Fails with `UnknownMember` exactly when no member has
    /// that name, and then leaves the pointer where it was.
    pub fn select(&mut self, members: &Vec<Member>, name: &str) -> (done: Result<(), ProxyError>)
        ensures
            match done {
                Ok(_) => is_first_named(members@, name@, final(self)@ as int),
                Err(e) => {
                    &&& e matches ProxyError::UnknownMember(unknown)
                    &&& unknown@ == name@
                    &&& !is_member(members@, name@)
                    &&& final(self)@ == old(self)@
                },
            },
    {
        let wanted: String = String::from_str(name);
        let mut i: usize = 0;
        while i < members.len()
            invariant
                i <= members.len(),
                wanted@ == name@,
                self@ == old(self)@,
                forall|j: int| 0 <= j < i ==> (#[trigger] members@[j]).name@ != name@,
            decreases members.len() - i,
        {
            if members[i].name == wanted {
                self.current = i;
                return Ok(());
            }
            i += 1;
        }
        Err(ProxyError::UnknownMember(wanted))
    }

    /// The position of the chosen member. Before any choice that is the first
    /// member. A pointer that the member list has shrunk away from falls back
    /// to the first member. Health plays no part. Fails with `NoLiveProxy`
    /// exactly when there are no members.
    pub fn current(&self, members: &Vec<Member>) -> (picked: Result<usize, ProxyError>)
        ensures
            match picked {
                Ok(i) => members@.len() > 0 && i == pointed(self@, members@.len()),
                Err(e) => e is NoLiveProxy && members@.len() == 0,
            },
    {
        if members.len() == 0 {
            Err(ProxyError::NoLiveProxy)
        } else if self.current < members.len() {
            Ok(self.current)
        } else {
            Ok(0)
        }
    }
}

} // verus!
