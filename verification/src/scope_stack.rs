//! The scope stack: an ordered sequence of cumulative context labels owned by
//! one thread of execution, together with the scope token whose release is the
//! only way to pop an entry.
//!
//! Entry `k` holds the fully rendered label for nesting depth `k`: the raw
//! label at depth 0, and `entries[k-1] + ": " + label` below that, so reading
//! the current label never re-renders the chain.

use vstd::prelude::*;
use vstd::string::StringExecFns;

verus! {

/// The separator placed between an enclosing cumulative label and the next
/// label or message.
pub open spec fn sep() -> Seq<char> {
    seq![':', ' ']
}

/// The cumulative label that entering a scope with `label` produces on a
/// stack whose entries are `prev`: the label itself at depth 0, otherwise the
/// top entry, the separator, and the label.
pub open spec fn cumulative(prev: Seq<Seq<char>>, label: Seq<char>) -> Seq<char> {
    if prev.len() == 0 {
        label
    } else {
        prev.last() + sep() + label
    }
}

/// An ordered stack of cumulative context labels, owned by the execution
/// context that uses it. Each thread holds its own `ScopeStack`; no entry is
/// shared with or visible to another stack.
pub struct ScopeStack {
    entries: Vec<String>,
}

impl View for ScopeStack {
    type V = Seq<Seq<char>>;

    closed spec fn view(&self) -> Seq<Seq<char>> {
        self.entries@.map_values(|e: String| e@)
    }
}

/// A token returned by entering a scope. Releasing it through
/// [`ScopeStack::exit`] is the only way to pop the entry it pushed, so pops
/// happen in strict LIFO order, exactly once per token.
///
/// The token records (as ghost state) the stack contents below its own entry,
/// which is what the stack returns to when the token is released.
pub struct Scope {
    /// The entries that were on the stack when this scope was entered.
    pub below: Ghost<Seq<Seq<char>>>,
}

impl ScopeStack {
    /// A stack with no active scope.
    pub fn new() -> (s: ScopeStack)
        ensures
            s@ == Seq::<Seq<char>>::empty(),
    {
        let s = ScopeStack { entries: Vec::new() };
        proof {
            assert(s@ =~= Seq::<Seq<char>>::empty());
        }
        s
    }

    /// The number of currently active scopes.
    pub fn depth(&self) -> (n: usize)
        ensures
            n == self@.len(),
    {
        self.entries.len()
    }

    /// The current cumulative label: the top entry, or `None` when no scope
    /// is active. Read-only; does not allocate.
    pub fn current(&self) -> (r: Option<&String>)
        ensures
            match r {
                None => self@.len() == 0,
                Some(top) => self@.len() > 0 && top@ == self@.last(),
            },
    {
        let n = self.entries.len();
        if n == 0 {
            None
        } else {
            Some(&self.entries[n - 1])
        }
    }

    /// Appends the cumulative entry for `label`. Never rejects its input: an
    /// empty label simply extends the chain with an empty component.
    pub fn push_label(&mut self, label: &str)
        ensures
            final(self)@ == old(self)@.push(cumulative(old(self)@, label@)),
    {
        let n = self.entries.len();
        if n == 0 {
            self.entries.push(label.to_owned());
        } else {
            let mut entry = self.entries[n - 1].clone();
            entry.append(": ");
            entry.append(label);
            proof {
                reveal_strlit(": ");
                assert(": "@ =~= sep());
            }
            self.entries.push(entry);
        }
        proof {
            assert(self@ =~= old(self)@.push(cumulative(old(self)@, label@)));
        }
    }

    /// Removes the top entry. The intended caller is [`ScopeStack::exit`],
    /// whose token guarantees the stack is non-empty.
    pub fn pop_label(&mut self)
        requires
            old(self)@.len() > 0,
        ensures
            final(self)@ == old(self)@.drop_last(),
    {
        self.entries.pop();
        proof {
            assert(self@ =~= old(self)@.drop_last());
        }
    }

    /// Enters a scope: pushes the cumulative entry for `label` and returns
    /// the token bound to it.
    pub fn enter(&mut self, label: &str) -> (token: Scope)
        ensures
            final(self)@ == old(self)@.push(cumulative(old(self)@, label@)),
            final(self)@.len() == old(self)@.len() + 1,
            final(self)@.drop_last() == old(self)@,
            token.below@ == old(self)@,
    {
        let ghost below: Seq<Seq<char>> = self@;
        self.push_label(label);
        proof {
            assert(self@.drop_last() =~= below);
        }
        Scope { below: Ghost(below) }
    }

    /// Exits a scope: consumes its token and pops the entry it pushed,
    /// returning the stack to exactly the contents it had when the scope was
    /// entered.
    pub fn exit(&mut self, token: Scope)
        requires
            old(self)@.len() == token.below@.len() + 1,
            old(self)@.drop_last() == token.below@,
        ensures
            final(self)@ == token.below@,
    {
        self.pop_label();
    }
}

/// Push/pop balance and restartability: entering a scope and then exiting it
/// leaves the stack exactly as it was; and because the stack is restored,
/// re-entering the same label afterwards produces the identical cumulative
/// entry.
pub proof fn lemma_scope_round_trip(s: Seq<Seq<char>>, label: Seq<char>)
    ensures
        s.push(cumulative(s, label)).drop_last() == s,
        cumulative(s.push(cumulative(s, label)).drop_last(), label) == cumulative(s, label),
{
    assert(s.push(cumulative(s, label)).drop_last() =~= s);
}

/// A well-nested, balanced sequence of enter and exit operations: either no
/// operation at all, or an enter of `label`, a balanced inner sequence, the
/// matching exit, and a balanced remainder. Scope tokens enforce exactly this
/// nesting: an exit always releases the most recent unreleased enter, on
/// every exit path from the block between them.
pub enum BalancedOps {
    /// No operations.
    Done,
    /// Enter `label`, perform `inner`, exit, then perform `rest`.
    Nest { label: Seq<char>, inner: Box<BalancedOps>, rest: Box<BalancedOps> },
}

/// The stack contents after performing `ops` on a stack holding `s`: an enter
/// pushes the cumulative entry for its label, the matching exit pops it.
pub open spec fn perform(s: Seq<Seq<char>>, ops: BalancedOps) -> Seq<Seq<char>>
    decreases ops,
{
    match ops {
        BalancedOps::Done => s,
        BalancedOps::Nest { label, inner, rest } => {
            let entered = s.push(cumulative(s, label));
            let exited = perform(entered, *inner).drop_last();
            perform(exited, *rest)
        },
    }
}

/// Push/pop balance in general: every balanced sequence of enter and exit
/// operations leaves the stack — and so its depth — exactly as it found it.
pub proof fn lemma_balanced_ops_preserve_stack(s: Seq<Seq<char>>, ops: BalancedOps)
    ensures
        perform(s, ops) == s,
    decreases ops,
{
    match ops {
        BalancedOps::Done => {},
        BalancedOps::Nest { label, inner, rest } => {
            let entered = s.push(cumulative(s, label));
            lemma_balanced_ops_preserve_stack(entered, *inner);
            assert(entered.drop_last() =~= s);
            lemma_balanced_ops_preserve_stack(s, *rest);
        },
    }
}

} // verus!
