//! A LIFO stack with an optional capacity bound.
//!
//! The stack can be created empty (bounded or unbounded), built by draining
//! a vector or consuming one, and supports push, pop, destructive iteration,
//! element-wise transformation into a new stack, and textual rendering.

use vstd::prelude::*;

verus! {

/// Error returned by [`Stack::stack_up`] when a bounded stack is full.
#[derive(Debug)]
pub struct StackUpError;

impl StackUpError {
    /// The fixed human-readable description of this error.
    pub fn message(&self) -> (r: String)
        ensures
            r@ == "Couldn't stack up element because stack was full"@,
    {
        String::from_str("Couldn't stack up element because stack was full")
    }
}

/// Error returned by [`Stack::unstack_up`] when the stack is empty.
#[derive(Debug)]
pub struct UnstackUpError;

impl UnstackUpError {
    /// The fixed human-readable description of this error.
    pub fn message(&self) -> (r: String)
        ensures
            r@ == "Couldn't unstack up element because stack was empty"@,
    {
        String::from_str("Couldn't unstack up element because stack was empty")
    }
}

/// A LIFO stack. The top is the last element of the underlying sequence.
/// `sized` is `None` for an unbounded stack, `Some(n)` for one that holds at
/// most `n` elements.
#[derive(Clone)]
pub struct Stack<T> {
    content: Vec<T>,
    sized: Option<usize>,
}

impl<T> View for Stack<T> {
    type V = Seq<T>;

    closed spec fn view(&self) -> Seq<T> {
        self.content@
    }
}

impl<T> Stack<T> {
    /// The capacity bound: `None` when unbounded, `Some(n)` when bounded.
    pub closed spec fn max_size(&self) -> Option<usize> {
        self.sized
    }

    /// A bounded stack never holds more elements than its bound.
    pub open spec fn wf(&self) -> bool {
        self.max_size() matches Some(n) ==> self@.len() <= n
    }

    /// Whether a push would succeed: unbounded, or strictly under the bound.
    pub open spec fn pushable(&self) -> bool {
        match self.max_size() {
            None => true,
            Some(n) => self@.len() < n,
        }
    }

    /// Creates an empty, unbounded stack.
    pub fn new() -> (r: Self)
        ensures
            r.wf(),
            r@ == Seq::<T>::empty(),
            r.max_size() is None,
    {
        Stack { content: Vec::new(), sized: None }
    }

    /// Creates an empty stack that will hold at most `max_size` elements.
    pub fn with_max_size(max_size: usize) -> (r: Self)
        ensures
            r.wf(),
            r@ == Seq::<T>::empty(),
            r.max_size() == Some(max_size),
    {
        Stack { content: Vec::new(), sized: Some(max_size) }
    }

    /// Pushes an element on top. Fails, dropping the element, if and only
    /// if the stack is bounded and already at its bound.
    pub fn stack_up(&mut self, element: T) -> (r: Result<(), StackUpError>)
        requires
            old(self).wf(),
        ensures
            final(self).wf(),
            final(self).max_size() == old(self).max_size(),
            old(self).pushable() <==> r is Ok,
            r is Ok ==> final(self)@ == old(self)@.push(element),
            r is Err ==> final(self)@ == old(self)@,
    {
        if self.can_stack_up() {
            self.content.push(element);
            Ok(())
        } else {
            Err(StackUpError)
        }
    }

    /// Removes and returns the top element. Fails if and only if the stack
    /// is empty.
    pub fn unstack_up(&mut self) -> (r: Result<T, UnstackUpError>)
        requires
            old(self).wf(),
        ensures
            final(self).wf(),
            final(self).max_size() == old(self).max_size(),
            (old(self)@.len() > 0) <==> (r is Ok),
            r matches Ok(e) ==> e == old(self)@.last() && final(self)@ == old(self)@.drop_last(),
            r is Err ==> final(self)@ == old(self)@,
    {
        if self.can_unstack_up() {
            let e = self.content.pop().unwrap();
            Ok(e)
        } else {
            Err(UnstackUpError)
        }
    }

    /// True if and only if a push would succeed now.
    pub fn can_stack_up(&self) -> (r: bool)
        ensures
            r == self.pushable(),
    {
        match self.sized {
            None => true,
            Some(n) => n > self.content.len(),
        }
    }

    /// True if and only if the stack is non-empty, so a pop would succeed.
    pub fn can_unstack_up(&self) -> (r: bool)
        ensures
            r == (self@.len() > 0),
    {
        self.content.len() > 0
    }

    /// Moves every element out of `v`, front first, into a new unbounded
    /// stack; `v` is left empty and the last element of `v` ends on top.
    pub fn from_vec_draining(v: &mut Vec<T>) -> (r: Stack<T>)
        ensures
            final(v)@ == Seq::<T>::empty(),
            r.wf(),
            r.max_size() is None,
            r@ == old(v)@,
    {
        let mut s = Stack::new();
        while v.len() > 0
            invariant
                s.wf(),
                s.max_size() is None,
                old(v)@ == s@ + v@,
            decreases v@.len(),
        {
            let ghost prev_s = s@;
            let ghost prev_v = v@;
            let e = v.remove(0);
            let _ = s.stack_up(e);
            proof {
                assert(s@ + v@ =~= prev_s + prev_v);
            }
        }
        proof {
            assert(s@ =~= old(v)@);
        }
        s
    }

    /// Builds an unbounded stack by pushing the elements of `v` in order,
    /// so the last element of `v` ends on top.
    pub fn from_vec(v: Vec<T>) -> (r: Stack<T>)
        ensures
            r.wf(),
            r.max_size() is None,
            r@ == v@,
    {
        let mut source = v;
        Stack::from_vec_draining(&mut source)
    }

    /// One step of destructive iteration: removes and returns the top
    /// element, or returns `None` once the stack is empty.
    pub fn next(&mut self) -> (r: Option<T>)
        requires
            old(self).wf(),
        ensures
            final(self).wf(),
            final(self).max_size() == old(self).max_size(),
            old(self)@.len() == 0 ==> r is None && final(self)@ == old(self)@,
            old(self)@.len() > 0 ==> r == Some(old(self)@.last()) && final(self)@ == old(
                self,
            )@.drop_last(),
    {
        self.content.pop()
    }

    /// Destructive iteration run to exhaustion: pops every element, top
    /// first, and returns them in pop order, which reverses the stack's
    /// bottom-to-top order. The stack is left empty.
    pub fn drain(&mut self) -> (r: Vec<T>)
        requires
            old(self).wf(),
        ensures
            final(self).wf(),
            final(self).max_size() == old(self).max_size(),
            final(self)@ == Seq::<T>::empty(),
            r@ == old(self)@.reverse(),
    {
        let ghost orig = self@;
        let mut out: Vec<T> = Vec::new();
        while self.content.len() > 0
            invariant
                self.wf(),
                self.max_size() == old(self).max_size(),
                self@ == orig.take(self@.len() as int),
                self@.len() + out@.len() == orig.len(),
                forall|j: int|
                    0 <= j < out@.len() ==> out@[j] == orig[orig.len() - 1 - j],
            decreases self@.len(),
        {
            let e = self.content.pop().unwrap();
            out.push(e);
            proof {
                assert(self@ =~= orig.take(self@.len() as int));
            }
        }
        proof {
            assert(out@ =~= orig.reverse());
        }
        out
    }

    /// Pops every element off this stack, top first, applies `f` to each,
    /// and pushes the results in that same order onto a new unbounded
    /// stack. The original top therefore ends at the new stack's bottom,
    /// and this stack is left empty. `f` must be total over `T`.
    pub fn transform<G, F: Fn(T) -> G>(&mut self, f: F) -> (r: Stack<G>)
        requires
            old(self).wf(),
            forall|x: T| call_requires(f, (x,)),
        ensures
            final(self).wf(),
            final(self).max_size() == old(self).max_size(),
            final(self)@ == Seq::<T>::empty(),
            r.wf(),
            r.max_size() is None,
            r@.len() == old(self)@.len(),
            forall|j: int|
                0 <= j < r@.len() ==> call_ensures(
                    f,
                    (old(self)@[old(self)@.len() - 1 - j],),
                    #[trigger] r@[j],
                ),
    {
        let ghost orig = self@;
        let mut s: Stack<G> = Stack::new();
        while self.content.len() > 0
            invariant
                forall|x: T| call_requires(f, (x,)),
                self.wf(),
                self.max_size() == old(self).max_size(),
                self@ == orig.take(self@.len() as int),
                s.wf(),
                s.max_size() is None,
                self@.len() + s@.len() == orig.len(),
                forall|j: int|
                    0 <= j < s@.len() ==> call_ensures(
                        f,
                        (orig[orig.len() - 1 - j],),
                        #[trigger] s@[j],
                    ),
            decreases self@.len(),
        {
            let e = self.content.pop().unwrap();
            let g = f(e);
            let _ = s.stack_up(g);
            proof {
                assert(self@ =~= orig.take(self@.len() as int));
            }
        }
        s
    }
}

/// The given lines joined with a single newline between consecutive lines
/// and no trailing newline.
pub open spec fn joined_lines(lines: Seq<Seq<char>>) -> Seq<char>
    decreases lines.len(),
{
    if lines.len() == 0 {
        Seq::empty()
    } else if lines.len() == 1 {
        lines[0]
    } else {
        joined_lines(lines.drop_last()) + seq!['\n'] + lines.last()
    }
}

impl Stack<String> {
    /// Renders the stack as text: one line per element, from the bottom of
    /// the stack to the top, separated by newlines, with no trailing
    /// newline.
    pub fn render(&self) -> (r: String)
        ensures
            r@ == joined_lines(self@.map_values(|s: String| s@)),
    {
        let ghost lines = self@.map_values(|s: String| s@);
        let mut out = String::new();
        let mut i: usize = 0;
        while i < self.content.len()
            invariant
                i <= self.content.len(),
                lines == self@.map_values(|s: String| s@),
                out@ == joined_lines(lines.take(i as int)),
            decreases self.content.len() - i,
        {
            if i > 0 {
                out.append("\n");
            }
            out.append(self.content[i].as_str());
            proof {
                reveal_strlit("\n");
                assert(lines.take(i as int) =~= lines.take(i + 1).drop_last());
                if i > 0 {
                    assert(out@ == joined_lines(lines.take(i as int)) + "\n"@ + lines[i as int]);
                    assert("\n"@ =~= seq!['\n']);
                } else {
                    assert(out@ =~= lines[0]);
                }
                assert(out@ == joined_lines(lines.take(i + 1)));
            }
            i = i + 1;
        }
        proof {
            assert(lines.take(lines.len() as int) =~= lines);
        }
        out
    }
}

/// The sequence that popping a stack holding `s` to exhaustion produces:
/// the last element first, then the result of popping the rest.
pub open spec fn pop_all<T>(s: Seq<T>) -> Seq<T>
    decreases s.len(),
{
    if s.len() == 0 {
        Seq::empty()
    } else {
        seq![s.last()] + pop_all(s.drop_last())
    }
}

/// Round trip: a stack built by pushing the elements of `s` in order (as
/// [`Stack::from_vec`] and [`Stack::from_vec_draining`] do), when popped to
/// exhaustion (one [`Stack::unstack_up`] per element), yields exactly `s`
/// reversed.
pub proof fn lemma_round_trip<T>(s: Seq<T>)
    ensures
        pop_all(s) == s.reverse(),
    decreases s.len(),
{
    if s.len() == 0 {
        assert(pop_all(s) =~= s.reverse());
    } else {
        lemma_round_trip(s.drop_last());
        assert(pop_all(s) =~= s.reverse());
    }
}

} // verus!
