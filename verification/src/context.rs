//! Method invocation: the execution context, the interpreter boundary, and
//! the contract for harvesting a method's result.
//!
//! Invoking a control method seeds a fresh [`AmlExecutionContext`] rooted
//! at the caller's scope, binds the arguments positionally, hands the
//! method's term list to the external bytecode interpreter, and — however
//! interpretation terminated — unconditionally discards every namespace
//! object the invocation declared. A method may change pre-existing
//! objects, but it can neither leak a transient declaration into the
//! shared namespace nor drop an object from it: after the unwind the set
//! of named paths is exactly what it was before.

use vstd::prelude::*;

use crate::namespace::Namespace;
use crate::value::{value_view, AmlValue, AmlValueView, Method};

verus! {

/// The terminal state interpretation of a method body leaves behind.
pub enum ExecutionState {
    /// Interpretation is under way, or ended by normal fallthrough.
    Executing,
    /// An explicit return carrying a value.
    Return(AmlValue),
    /// A loop exit that no enclosing loop resolved.
    Break,
    /// A loop continuation that no enclosing loop resolved.
    Continue,
}

/// One method invocation's execution state: the scope it runs under, its
/// argument and local slots, the shared namespace it holds for the
/// duration, and the record of what it declared there.
pub struct AmlExecutionContext {
    /// The absolute namespace path the method body runs under.
    pub scope: String,
    /// The eight positional argument slots.
    pub arg_vars: Vec<AmlValue>,
    /// The eight local slots.
    pub local_vars: Vec<AmlValue>,
    /// The terminal state interpretation has reached.
    pub state: ExecutionState,
    /// The shared namespace, held for the duration of the invocation.
    pub namespace: Namespace,
    /// The paths this invocation declared; unwound unconditionally when
    /// the invocation ends.
    pub namespace_delta: Vec<String>,
}

impl AmlExecutionContext {
    /// A context is well formed when its namespace is and both slot banks
    /// hold exactly the eight positional slots.
    pub open spec fn inv(&self) -> bool {
        &&& self.namespace.wf()
        &&& self.arg_vars@.len() == 8
        &&& self.local_vars@.len() == 8
    }

    /// The set of paths this invocation has declared so far.
    pub open spec fn delta_keys(&self) -> Set<Seq<char>> {
        self.namespace_delta@.map_values(|p: String| p@).to_set()
    }

    /// The namespace discipline every step of an invocation preserves:
    /// the scope stands, no pre-existing object disappears, every path
    /// that appeared is on record in the delta, and the record only ever
    /// grows, by paths that were new when recorded.
    pub open spec fn evolved_from(&self, pre: Self) -> bool {
        &&& self.scope@ == pre.scope@
        &&& pre.namespace@.dom() <= self.namespace@.dom()
        &&& forall|k: Seq<char>|
            #[trigger] self.namespace@.dom().contains(k) && !pre.namespace@.dom().contains(k)
                ==> self.delta_keys().contains(k)
        &&& pre.delta_keys() <= self.delta_keys()
        &&& forall|k: Seq<char>|
            #[trigger] self.delta_keys().contains(k) && !pre.delta_keys().contains(k)
                ==> !pre.namespace@.dom().contains(k)
    }

    /// A fresh context rooted at `scope`: empty slots, no declarations,
    /// interpretation not yet terminated.
    pub fn new(scope: String, namespace: Namespace) -> (r: AmlExecutionContext)
        requires
            namespace.wf(),
        ensures
            r.inv(),
            r.scope@ == scope@,
            r.namespace@ == namespace@,
            r.delta_keys() == Set::<Seq<char>>::empty(),
            r.namespace_delta@.len() == 0,
            r.state is Executing,
            forall|i: int| 0 <= i < 8 ==> r.arg_vars@[i] is Uninitialized,
            forall|i: int| 0 <= i < 8 ==> r.local_vars@[i] is Uninitialized,
    {
        let r = AmlExecutionContext {
            scope,
            arg_vars: fresh_slots(),
            local_vars: fresh_slots(),
            state: ExecutionState::Executing,
            namespace,
            namespace_delta: Vec::new(),
        };
        proof {
            assert(r.delta_keys() =~= Set::<Seq<char>>::empty());
        }
        r
    }

    /// Binds `parameters` positionally into the argument slots: slot `i`
    /// takes the `i`-th parameter, and slots past the list stay
    /// uninitialized. The list's length is not validated against any
    /// method's declared argument count; parameters past the last slot
    /// are dropped.
    pub fn init_arg_vars(&mut self, parameters: Vec<AmlValue>)
        ensures
            final(self).arg_vars@.len() == 8,
            forall|i: int|
                0 <= i < 8 && i < parameters@.len() ==> final(self).arg_vars@[i]
                    == parameters@[i],
            forall|i: int|
                parameters@.len() <= i < 8 ==> final(self).arg_vars@[i] is Uninitialized,
            final(self).scope == old(self).scope,
            final(self).local_vars == old(self).local_vars,
            final(self).state == old(self).state,
            final(self).namespace == old(self).namespace,
            final(self).namespace_delta == old(self).namespace_delta,
    {
        let ghost given = parameters@;
        let mut slots = parameters;
        slots.truncate(8);
        proof {
            assert(slots@ =~= if given.len() <= 8 {
                given
            } else {
                given.subrange(0, 8)
            });
        }
        while slots.len() < 8
            invariant
                slots@.len() <= 8,
                given.len() > 8 || slots@.len() >= given.len(),
                given.len() <= 8 || slots@.len() == 8,
                forall|i: int| 0 <= i < 8 && i < given.len() && i < slots@.len() ==> slots@[i] == given[i],
                forall|i: int| given.len() <= i < slots@.len() ==> slots@[i] is Uninitialized,
            decreases 8 - slots@.len(),
        {
            let ghost before_push = slots@;
            slots.push(AmlValue::Uninitialized);
            proof {
                assert(forall|i: int| 0 <= i < before_push.len() ==> slots@[i] == before_push[i]);
                assert(slots@[before_push.len() as int] is Uninitialized);
            }
        }
        self.arg_vars = slots;
    }

    /// The value of argument slot `i`.
    pub fn get_arg(&self, i: usize) -> (r: &AmlValue)
        requires
            self.inv(),
            i < 8,
        ensures
            *r == self.arg_vars@[i as int],
    {
        &self.arg_vars[i]
    }

    /// Overwrites argument slot `i`.
    pub fn set_arg(&mut self, i: usize, value: AmlValue)
        requires
            old(self).inv(),
            i < 8,
        ensures
            final(self).inv(),
            final(self).arg_vars@ == old(self).arg_vars@.update(i as int, value),
            final(self).scope == old(self).scope,
            final(self).local_vars == old(self).local_vars,
            final(self).state == old(self).state,
            final(self).namespace == old(self).namespace,
            final(self).namespace_delta == old(self).namespace_delta,
    {
        self.arg_vars.set(i, value);
    }

    /// The value of local slot `i`.
    pub fn get_local(&self, i: usize) -> (r: &AmlValue)
        requires
            self.inv(),
            i < 8,
        ensures
            *r == self.local_vars@[i as int],
    {
        &self.local_vars[i]
    }

    /// Overwrites local slot `i`.
    pub fn set_local(&mut self, i: usize, value: AmlValue)
        requires
            old(self).inv(),
            i < 8,
        ensures
            final(self).inv(),
            final(self).local_vars@ == old(self).local_vars@.update(i as int, value),
            final(self).scope == old(self).scope,
            final(self).arg_vars == old(self).arg_vars,
            final(self).state == old(self).state,
            final(self).namespace == old(self).namespace,
            final(self).namespace_delta == old(self).namespace_delta,
    {
        self.local_vars.set(i, value);
    }

    /// Sets the terminal state.
    pub fn set_state(&mut self, state: ExecutionState)
        ensures
            final(self).state == state,
            final(self).scope == old(self).scope,
            final(self).arg_vars == old(self).arg_vars,
            final(self).local_vars == old(self).local_vars,
            final(self).namespace == old(self).namespace,
            final(self).namespace_delta == old(self).namespace_delta,
    {
        self.state = state;
    }

    /// Declares or overwrites the object `path` names, recording the path
    /// in the delta when it is new: such a declaration is transient and
    /// will be unwound when the invocation ends.
    pub fn add_to_namespace(&mut self, path: String, value: AmlValue)
        requires
            old(self).inv(),
        ensures
            final(self).inv(),
            final(self).namespace@ == old(self).namespace@.insert(path@, value),
            old(self).namespace@.dom().contains(path@) ==> final(self).delta_keys() == old(
                self,
            ).delta_keys(),
            !old(self).namespace@.dom().contains(path@) ==> final(self).delta_keys() == old(
                self,
            ).delta_keys().insert(path@),
            final(self).evolved_from(*old(self)),
            final(self).scope == old(self).scope,
            final(self).arg_vars == old(self).arg_vars,
            final(self).local_vars == old(self).local_vars,
            final(self).state == old(self).state,
    {
        if self.namespace.contains_path(&path) {
            self.namespace.insert(path, value);
        } else {
            let ghost pre_delta = self.namespace_delta@;
            self.namespace_delta.push(path.clone());
            proof {
                assert(self.namespace_delta@.map_values(|p: String| p@) =~= pre_delta.map_values(
                    |p: String| p@,
                ).push(path@));
                lemma_to_set_push(pre_delta.map_values(|p: String| p@), path@);
            }
            self.namespace.insert(path, value);
        }
    }

    /// The object `path` names, when it names one.
    pub fn get_from_namespace(&self, path: &String) -> (r: Option<&AmlValue>)
        requires
            self.inv(),
        ensures
            match r {
                Some(v) => self.namespace@.dom().contains(path@) && *v == self.namespace@[path@],
                Option::None => !self.namespace@.dom().contains(path@),
            },
    {
        self.namespace.get(path)
    }

    /// Unwinds every declaration this invocation made: each recorded path
    /// is removed from the namespace and the record is cleared. The unwind
    /// is unconditional — there is no distinguished failure path at this
    /// layer.
    pub fn clean_namespace(&mut self)
        requires
            old(self).inv(),
        ensures
            final(self).inv(),
            final(self).namespace@ == old(self).namespace@.remove_keys(old(self).delta_keys()),
            final(self).namespace_delta@.len() == 0,
            final(self).delta_keys() == Set::<Seq<char>>::empty(),
            final(self).scope == old(self).scope,
            final(self).arg_vars == old(self).arg_vars,
            final(self).local_vars == old(self).local_vars,
            final(self).state == old(self).state,
    {
        while self.namespace_delta.len() > 0
            invariant
                self.namespace.wf(),
                self.namespace@.remove_keys(self.delta_keys()) == old(self).namespace@.remove_keys(
                    old(self).delta_keys(),
                ),
                self.scope == old(self).scope,
                self.arg_vars == old(self).arg_vars,
                self.local_vars == old(self).local_vars,
                self.state == old(self).state,
            decreases self.namespace_delta@.len(),
        {
            let ghost pre_delta = self.namespace_delta@;
            let ghost pre_ns = self.namespace@;
            let path = self.namespace_delta.pop().unwrap();
            proof {
                assert(pre_delta.map_values(|p: String| p@).drop_last() =~= self.namespace_delta@.map_values(
                    |p: String| p@,
                ));
                lemma_to_set_drop_last(pre_delta.map_values(|p: String| p@));
            }
            self.namespace.remove(&path);
            proof {
                assert(self.namespace@.remove_keys(self.delta_keys()) =~= pre_ns.remove_keys(
                    pre_delta.map_values(|p: String| p@).to_set(),
                ));
            }
        }
        proof {
            assert(self.delta_keys() =~= Set::<Seq<char>>::empty());
            assert(self.namespace@.remove_keys(self.delta_keys()) =~= self.namespace@);
        }
    }
}

/// Eight uninitialized slots.
fn fresh_slots() -> (r: Vec<AmlValue>)
    ensures
        r@.len() == 8,
        forall|i: int| 0 <= i < 8 ==> r@[i] is Uninitialized,
{
    let mut r: Vec<AmlValue> = Vec::new();
    let mut i: usize = 0;
    while i < 8
        invariant
            i <= 8,
            r@.len() == i,
            forall|j: int| 0 <= j < i ==> r@[j] is Uninitialized,
        decreases 8 - i,
    {
        r.push(AmlValue::Uninitialized);
        i = i + 1;
    }
    r
}

/// Membership in the set of a pushed sequence.
proof fn lemma_to_set_push(s: Seq<Seq<char>>, x: Seq<char>)
    ensures
        s.push(x).to_set() == s.to_set().insert(x),
{
    assert(s.push(x).to_set() =~= s.to_set().insert(x)) by {
        assert forall|y: Seq<char>| #[trigger] s.push(x).to_set().contains(y) implies s.to_set().insert(
            x,
        ).contains(y) by {
            if s.push(x).contains(y) {
                let i = choose|i: int| 0 <= i < s.push(x).len() && s.push(x)[i] == y;
                if i < s.len() {
                    assert(s[i] == y);
                }
            }
        }
        assert forall|y: Seq<char>| #[trigger] s.to_set().insert(x).contains(y) implies s.push(x).to_set().contains(
            y,
        ) by {
            if y == x {
                assert(s.push(x)[s.len() as int] == y);
            } else {
                let i = choose|i: int| 0 <= i < s.len() && s[i] == y;
                assert(s.push(x)[i] == y);
            }
        }
    }
}

/// The set of a sequence with its last element dropped misses at most
/// that element.
proof fn lemma_to_set_drop_last(s: Seq<Seq<char>>)
    requires
        s.len() > 0,
    ensures
        s.to_set() == s.drop_last().to_set().insert(s.last()),
{
    assert(s.drop_last().push(s.last()) =~= s);
    lemma_to_set_push(s.drop_last(), s.last());
}

/// The result a terminal state yields: the value of an explicit return,
/// and the integer constant zero for every other terminal state — ACPI's
/// rule that a method without an explicit return produces zero.
pub open spec fn method_result(state: ExecutionState) -> AmlValueView {
    match state {
        ExecutionState::Return(v) => value_view(v),
        _ => AmlValueView::IntegerConstant(0),
    }
}

/// Harvests the result of a terminal state: the explicitly returned value
/// when there is one, the integer constant zero otherwise.
pub fn return_value_of(state: ExecutionState) -> (r: AmlValue)
    ensures
        r@ == method_result(state),
        !(state is Return) ==> r == AmlValue::IntegerConstant(0),
{
    match state {
        ExecutionState::Return(v) => v,
        _ => AmlValue::IntegerConstant(0),
    }
}

/// A method body that never issues an explicit return yields the integer
/// constant zero, whatever else interpretation did.
pub proof fn lemma_no_return_yields_zero(state: ExecutionState)
    requires
        !(state is Return),
    ensures
        method_result(state) == AmlValueView::IntegerConstant(0),
{
}

/// The external bytecode interpreter this core delegates to. Given a
/// method body and the invocation's context, it performs structured
/// interpretation: it may declare namespace objects, mutate local and
/// argument slots, branch, loop, and set the terminal state. It reaches
/// the namespace only through the context's own operations, whose
/// contracts preserve the namespace discipline `evolved_from` states: the
/// scope stands, no pre-existing object disappears, and every path that
/// appears is on record in the context's delta.
pub trait TermListInterpreter {
    fn interpret_term_list(&mut self, term_list: &[u8], ctx: &mut AmlExecutionContext)
        requires
            old(ctx).inv(),
        ensures
            final(ctx).inv(),
            final(ctx).evolved_from(*old(ctx)),
    ;
}

impl Method {
    /// Invokes the method: seeds a fresh execution context rooted at
    /// `scope`, binds `parameters` positionally, delegates the body to the
    /// interpreter, unconditionally discards every namespace object the
    /// invocation declared, and harvests the result — the explicitly
    /// returned value, or the integer constant zero when interpretation
    /// ended any other way.
    ///
    /// Whatever the body did, the set of named paths afterwards is exactly
    /// the set before: an invocation may change pre-existing objects, but
    /// it can neither leak a transient declaration nor drop an object.
    pub fn execute<I: TermListInterpreter>(
        &self,
        interpreter: &mut I,
        scope: String,
        parameters: Vec<AmlValue>,
        namespace: &mut Namespace,
    ) -> (r: AmlValue)
        requires
            old(namespace).wf(),
        ensures
            final(namespace).wf(),
            final(namespace)@.dom() == old(namespace)@.dom(),
    {
        let mut taken = Namespace::new();
        core::mem::swap(namespace, &mut taken);
        let mut ctx = AmlExecutionContext::new(scope, taken);
        ctx.init_arg_vars(parameters);
        let ghost seeded = ctx;
        interpreter.interpret_term_list(self.term_list.as_slice(), &mut ctx);
        let ghost interpreted = ctx;
        ctx.clean_namespace();
        proof {
            assert(ctx.namespace@.dom() =~= old(namespace)@.dom()) by {
                assert forall|k: Seq<char>| old(namespace)@.dom().contains(k) implies #[trigger] ctx.namespace@.dom().contains(
                    k,
                ) by {
                    assert(seeded.namespace@.dom().contains(k));
                    assert(interpreted.namespace@.dom().contains(k));
                    assert(!interpreted.delta_keys().contains(k));
                }
                assert forall|k: Seq<char>| #[trigger] ctx.namespace@.dom().contains(k) implies old(
                    namespace,
                )@.dom().contains(k) by {
                    assert(interpreted.namespace@.dom().contains(k));
                    assert(!interpreted.delta_keys().contains(k));
                }
            }
        }
        let ns_back = ctx.namespace;
        let state = ctx.state;
        *namespace = ns_back;
        return_value_of(state)
    }
}

} // verus!
