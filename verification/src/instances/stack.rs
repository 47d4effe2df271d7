use vstd::prelude::*;

use crate::instances::frame::Frame;
use crate::instances::label::LabelInst;
use crate::instances::ref_inst::RefInst;
use crate::instances::value::Val;

verus! {

#[derive(Debug, Clone)]
pub enum StackEntry {
    Value(Val),
    Label(LabelInst),
    Frame(Frame),
}

impl StackEntry {
    pub fn is_value(&self) -> (r: bool)
        ensures
            r == (*self is Value),
    {
        match self {
            StackEntry::Value(_) => true,
            _ => false,
        }
    }

    pub fn is_label(&self) -> (r: bool)
        ensures
            r == (*self is Label),
    {
        match self {
            StackEntry::Label(_) => true,
            _ => false,
        }
    }

    pub fn is_frame(&self) -> (r: bool)
        ensures
            r == (*self is Frame),
    {
        match self {
            StackEntry::Frame(_) => true,
            _ => false,
        }
    }
}

/// The value on top of the stack, if the top entry is a value.
pub open spec fn top_value(s: Seq<StackEntry>) -> Option<Val> {
    if s.len() > 0 {
        match s.last() {
            StackEntry::Value(v) => Some(v),
            _ => None,
        }
    } else {
        None
    }
}

/// The stack after popping a value: the top entry goes only if it is a value.
pub open spec fn pop_value_spec(s: Seq<StackEntry>) -> Seq<StackEntry> {
    if top_value(s) is Some {
        s.drop_last()
    } else {
        s
    }
}

/// The stack with a value pushed on top.
pub open spec fn push_val(s: Seq<StackEntry>, v: Val) -> Seq<StackEntry> {
    s.push(StackEntry::Value(v))
}

/// The number of labels in the stack.
pub open spec fn label_count(s: Seq<StackEntry>) -> nat
    decreases s.len(),
{
    if s.len() == 0 {
        0
    } else {
        label_count(s.drop_last()) + if s.last() is Label {
            1nat
        } else {
            0nat
        }
    }
}

/// The label `i` positions from the top, counting labels only.
pub open spec fn nth_label(s: Seq<StackEntry>, i: nat) -> Option<LabelInst>
    decreases s.len(),
{
    if s.len() == 0 {
        None
    } else {
        match s.last() {
            StackEntry::Label(l) => if i == 0 {
                Some(l)
            } else {
                nth_label(s.drop_last(), (i - 1) as nat)
            },
            _ => nth_label(s.drop_last(), i),
        }
    }
}

/// The position of the topmost frame.
pub open spec fn top_frame_index(s: Seq<StackEntry>) -> Option<int>
    decreases s.len(),
{
    if s.len() == 0 {
        None
    } else if s.last() is Frame {
        Some(s.len() - 1)
    } else {
        top_frame_index(s.drop_last())
    }
}

/// The topmost frame.
pub open spec fn top_frame(s: Seq<StackEntry>) -> Option<Frame> {
    match top_frame_index(s) {
        Some(i) => match s[i] {
            StackEntry::Frame(f) => Some(f),
            _ => None,
        },
        None => None,
    }
}

pub proof fn lemma_label_count_le_len(s: Seq<StackEntry>)
    ensures
        label_count(s) <= s.len(),
    decreases s.len(),
{
    if s.len() > 0 {
        lemma_label_count_le_len(s.drop_last());
    }
}

pub proof fn lemma_top_frame_index_bounds(s: Seq<StackEntry>)
    ensures
        match top_frame_index(s) {
            Some(i) => 0 <= i < s.len() && s[i] is Frame && forall|j: int|
                i < j < s.len() ==> !(#[trigger] s[j] is Frame),
            None => forall|j: int| 0 <= j < s.len() ==> !(#[trigger] s[j] is Frame),
        },
    decreases s.len(),
{
    if s.len() > 0 && !(s.last() is Frame) {
        let t = s.drop_last();
        lemma_top_frame_index_bounds(t);
        assert forall|j: int| 0 <= j < t.len() implies t[j] == s[j] by {}
    }
}

/// Popping an entry other than a frame leaves the topmost frame in place.
pub proof fn lemma_top_frame_pop(s: Seq<StackEntry>)
    ensures
        s.len() > 0 && !(s.last() is Frame) ==> top_frame_index(s.drop_last()) == top_frame_index(s)
            && top_frame(s.drop_last()) == top_frame(s),
{
    if s.len() > 0 && !(s.last() is Frame) {
        let t = s.drop_last();
        lemma_top_frame_index_bounds(t);
        match top_frame_index(t) {
            Some(i) => {
                assert(t[i] == s[i]);
            },
            None => {},
        }
    }
}

/// `after` is `before` with local `j` of the frame at position `i` set to `v`.
pub open spec fn local_replaced(before: Seq<StackEntry>, after: Seq<StackEntry>, i: int, j: int, v: Val) -> bool {
    &&& after.len() == before.len()
    &&& forall|k: int| 0 <= k < before.len() && k != i ==> after[k] == before[k]
    &&& match (before[i], after[i]) {
        (StackEntry::Frame(f), StackEntry::Frame(g)) => {
            &&& g.module == f.module
            &&& g.arity == f.arity
            &&& g.locals@ == f.locals@.update(j, v)
        },
        _ => false,
    }
}

/// Popping a value right after pushing it gives that value back and leaves the
/// stack as it was before the push.
pub proof fn law_pop_after_push(s: Seq<StackEntry>, v: Val)
    ensures
        top_value(push_val(s, v)) == Some(v),
        pop_value_spec(push_val(s, v)) == s,
{
    assert(push_val(s, v).drop_last() =~= s);
}

/// Setting a local leaves the topmost frame where it was.
pub proof fn lemma_local_replaced_top_frame(before: Seq<StackEntry>, after: Seq<StackEntry>, i: int, j: int, v: Val)
    requires
        top_frame_index(before) == Some(i),
        local_replaced(before, after, i, j, v),
    ensures
        top_frame_index(after) == Some(i),
{
    lemma_top_frame_index_bounds(before);
    lemma_top_frame_index_bounds(after);
    match top_frame_index(after) {
        Some(k) => {
            if k < i {
                assert(after[i] is Frame);
            } else if k > i {
                assert(after[k] == before[k]);
            }
        },
        None => {
            assert(after[i] is Frame);
        },
    }
}

/// The operand, label and frame stack of the machine.
pub struct Stack {
    stack: Vec<StackEntry>,
}

impl View for Stack {
    type V = Seq<StackEntry>;

    closed spec fn view(&self) -> Seq<StackEntry> {
        self.stack@
    }
}

impl Stack {
    pub fn new() -> (r: Self)
        ensures
            r@ == Seq::<StackEntry>::empty(),
    {
        Stack { stack: Vec::new() }
    }

    pub fn pop(&mut self) -> (r: Option<StackEntry>)
        ensures
            old(self)@.len() > 0 ==> r == Some(old(self)@.last()) && final(self)@ == old(self)@.drop_last(),
            old(self)@.len() == 0 ==> r is None && final(self)@ == old(self)@,
    {
        self.stack.pop()
    }

    pub fn push_entry(&mut self, entry: StackEntry)
        ensures
            final(self)@ == old(self)@.push(entry),
    {
        self.stack.push(entry);
    }

    pub fn push_frame(&mut self, frame: Frame)
        ensures
            final(self)@ == old(self)@.push(StackEntry::Frame(frame)),
    {
        self.stack.push(StackEntry::Frame(frame));
    }

    pub fn push_value(&mut self, value: Val)
        ensures
            final(self)@ == push_val(old(self)@, value),
    {
        self.stack.push(StackEntry::Value(value));
    }

    pub fn push_label(&mut self, label: LabelInst)
        ensures
            final(self)@ == old(self)@.push(StackEntry::Label(label)),
    {
        self.stack.push(StackEntry::Label(label));
    }

    pub fn len(&self) -> (r: usize)
        ensures
            r == self@.len(),
    {
        self.stack.len()
    }

    pub fn last(&self) -> (r: Option<&StackEntry>)
        ensures
            self@.len() > 0 ==> r == Some(&self@.last()),
            self@.len() == 0 ==> r is None,
    {
        if self.stack.len() > 0 {
            Some(&self.stack[self.stack.len() - 1])
        } else {
            None
        }
    }

    pub fn count_labels(&self) -> (r: usize)
        ensures
            r == label_count(self@),
    {
        let ghost s = self@;
        let mut i = self.stack.len();
        let mut count: usize = 0;
        proof {
            assert(s.take(i as int) =~= s);
        }
        while i > 0
            invariant
                s == self@,
                s.len() == self.stack.len(),
                i <= s.len(),
                count <= s.len() - i,
                count + label_count(s.take(i as int)) == label_count(s),
            decreases i,
        {
            i = i - 1;
            proof {
                assert(s.take(i + 1).drop_last() =~= s.take(i as int));
            }
            if self.stack[i].is_label() {
                count = count + 1;
            }
        }
        count
    }

    pub fn get_label(&self, label_idx: usize) -> (r: Option<&LabelInst>)
        ensures
            match nth_label(self@, label_idx as nat) {
                Some(l) => r == Some(&l),
                None => r is None,
            },
    {
        let ghost s = self@;
        let mut i = self.stack.len();
        let mut k = label_idx;
        proof {
            assert(s.take(i as int) =~= s);
        }
        while i > 0
            invariant
                s == self@,
                s.len() == self.stack.len(),
                i <= s.len(),
                nth_label(s.take(i as int), k as nat) == nth_label(s, label_idx as nat),
            decreases i,
        {
            i = i - 1;
            proof {
                assert(s.take(i + 1).drop_last() =~= s.take(i as int));
            }
            if let StackEntry::Label(label) = &self.stack[i] {
                if k == 0 {
                    return Some(label);
                }
                k = k - 1;
            }
        }
        None
    }

    pub fn pop_value(&mut self) -> (r: Option<Val>)
        ensures
            r == top_value(old(self)@),
            final(self)@ == pop_value_spec(old(self)@),
    {
        match self.stack.pop() {
            Some(StackEntry::Value(val)) => Some(val),
            Some(v) => {
                self.stack.push(v);
                proof {
                    assert(self@ =~= old(self)@);
                }
                None
            },
            None => None,
        }
    }

    pub fn pop_i32(&mut self) -> (r: Option<u32>)
        ensures
            match top_value(old(self)@) {
                Some(Val::I32(v)) => r == Some(v) && final(self)@ == old(self)@.drop_last(),
                _ => r is None && final(self)@ == old(self)@,
            },
    {
        match self.stack.pop() {
            Some(StackEntry::Value(Val::I32(v))) => Some(v),
            Some(v) => {
                self.stack.push(v);
                proof {
                    assert(self@ =~= old(self)@);
                }
                None
            },
            None => None,
        }
    }

    pub fn pop_i64(&mut self) -> (r: Option<u64>)
        ensures
            match top_value(old(self)@) {
                Some(Val::I64(v)) => r == Some(v) && final(self)@ == old(self)@.drop_last(),
                _ => r is None && final(self)@ == old(self)@,
            },
    {
        match self.stack.pop() {
            Some(StackEntry::Value(Val::I64(v))) => Some(v),
            Some(v) => {
                self.stack.push(v);
                proof {
                    assert(self@ =~= old(self)@);
                }
                None
            },
            None => None,
        }
    }

    /// Pops a 32-bit float, returning its bit pattern.
    pub fn pop_f32(&mut self) -> (r: Option<u32>)
        ensures
            match top_value(old(self)@) {
                Some(Val::F32(v)) => r == Some(v) && final(self)@ == old(self)@.drop_last(),
                _ => r is None && final(self)@ == old(self)@,
            },
    {
        match self.stack.pop() {
            Some(StackEntry::Value(Val::F32(v))) => Some(v),
            Some(v) => {
                self.stack.push(v);
                proof {
                    assert(self@ =~= old(self)@);
                }
                None
            },
            None => None,
        }
    }

    /// Pops a 64-bit float, returning its bit pattern.
    pub fn pop_f64(&mut self) -> (r: Option<u64>)
        ensures
            match top_value(old(self)@) {
                Some(Val::F64(v)) => r == Some(v) && final(self)@ == old(self)@.drop_last(),
                _ => r is None && final(self)@ == old(self)@,
            },
    {
        match self.stack.pop() {
            Some(StackEntry::Value(Val::F64(v))) => Some(v),
            Some(v) => {
                self.stack.push(v);
                proof {
                    assert(self@ =~= old(self)@);
                }
                None
            },
            None => None,
        }
    }

    pub fn pop_v128(&mut self) -> (r: Option<u128>)
        ensures
            match top_value(old(self)@) {
                Some(Val::Vec(v)) => r == Some(v) && final(self)@ == old(self)@.drop_last(),
                _ => r is None && final(self)@ == old(self)@,
            },
    {
        match self.stack.pop() {
            Some(StackEntry::Value(Val::Vec(v))) => Some(v),
            Some(v) => {
                self.stack.push(v);
                proof {
                    assert(self@ =~= old(self)@);
                }
                None
            },
            None => None,
        }
    }

    pub fn pop_ref(&mut self) -> (r: Option<RefInst>)
        ensures
            match top_value(old(self)@) {
                Some(Val::Ref(v)) => r == Some(v) && final(self)@ == old(self)@.drop_last(),
                _ => r is None && final(self)@ == old(self)@,
            },
    {
        match self.stack.pop() {
            Some(StackEntry::Value(Val::Ref(v))) => Some(v),
            Some(v) => {
                self.stack.push(v);
                proof {
                    assert(self@ =~= old(self)@);
                }
                None
            },
            None => None,
        }
    }

    pub fn pop_frame(&mut self) -> (r: Option<Frame>)
        ensures
            old(self)@.len() > 0 && old(self)@.last() is Frame ==> r == Some(
                old(self)@.last()->Frame_0,
            ) && final(self)@ == old(self)@.drop_last(),
            !(old(self)@.len() > 0 && old(self)@.last() is Frame) ==> r is None && final(self)@
                == old(self)@,
    {
        let n = self.stack.len();
        if n > 0 && self.stack[n - 1].is_frame() {
            if let Some(StackEntry::Frame(frame)) = self.stack.pop() {
                return Some(frame);
            }
        }
        None
    }

    pub fn pop_label(&mut self) -> (r: Option<LabelInst>)
        ensures
            old(self)@.len() > 0 && old(self)@.last() is Label ==> r == Some(
                old(self)@.last()->Label_0,
            ) && final(self)@ == old(self)@.drop_last(),
            !(old(self)@.len() > 0 && old(self)@.last() is Label) ==> r is None && final(self)@
                == old(self)@,
    {
        let n = self.stack.len();
        if n > 0 && self.stack[n - 1].is_label() {
            if let Some(StackEntry::Label(label)) = self.stack.pop() {
                return Some(label);
            }
        }
        None
    }

    /// The topmost frame of the stack.
    pub fn current_frame(&self) -> (r: Option<&Frame>)
        ensures
            match top_frame(self@) {
                Some(f) => r == Some(&f),
                None => r is None,
            },
    {
        match self.current_frame_index() {
            Some(i) => match &self.stack[i] {
                StackEntry::Frame(frame) => Some(frame),
                _ => None,
            },
            None => None,
        }
    }

    /// The position of the topmost frame.
    pub fn current_frame_index(&self) -> (r: Option<usize>)
        ensures
            match r {
                Some(i) => top_frame_index(self@) == Some(i as int) && i < self@.len() && self@[i as int] is Frame,
                None => top_frame_index(self@) is None,
            },
    {
        let ghost s = self@;
        proof {
            lemma_top_frame_index_bounds(s);
        }
        let mut i = self.stack.len();
        proof {
            assert(s.take(i as int) =~= s);
        }
        while i > 0
            invariant
                s == self@,
                s.len() == self.stack.len(),
                i <= s.len(),
                top_frame_index(s.take(i as int)) == top_frame_index(s),
            decreases i,
        {
            i = i - 1;
            proof {
                assert(s.take(i + 1).drop_last() =~= s.take(i as int));
            }
            if self.stack[i].is_frame() {
                proof {
                    assert(s.take(i + 1).last() == s[i as int]);
                }
                return Some(i);
            }
        }
        None
    }

    /// Replaces the local `local_idx` of the topmost frame.
    pub fn set_local(&mut self, local_idx: usize, value: Val) -> (r: bool)
        ensures
            match top_frame(old(self)@) {
                Some(f) => if local_idx < f.locals.len() {
                    r && local_replaced(old(self)@, final(self)@, top_frame_index(old(self)@)->0, local_idx as int, value)
                } else {
                    !r && final(self)@ == old(self)@
                },
                None => !r && final(self)@ == old(self)@,
            },
    {
        match self.current_frame_index() {
            Some(i) => {
                let entry = &mut self.stack[i];
                match entry {
                    StackEntry::Frame(frame) => {
                        if local_idx < frame.locals.len() {
                            frame.locals.set(local_idx, value);
                            true
                        } else {
                            false
                        }
                    },
                    _ => false,
                }
            },
            None => false,
        }
    }
}

} // verus!
