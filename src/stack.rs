use vstd::prelude::*;

verus! {

/// A last-in first-out container; its view lists the values from the bottom
/// to the top.
#[derive(Debug)]
pub struct Stack<T> {
    inner: Vec<T>,
}

/// The last `n` values of `s`, the topmost first.
pub open spec fn top_first<T>(s: Seq<T>, n: nat) -> Seq<T>
    recommends
        n <= s.len(),
{
    Seq::new(n, |i: int| s[s.len() - 1 - i])
}

impl<T> View for Stack<T> {
    type V = Seq<T>;

    closed spec fn view(&self) -> Seq<T> {
        self.inner@
    }
}

impl<T> Stack<T> {
    /// An empty stack.
    pub fn new() -> (r: Self)
        ensures
            r@ == Seq::<T>::empty(),
    {
        Stack { inner: Vec::new() }
    }

    /// Whether the stack holds no value.
    pub fn is_empty(&self) -> (r: bool)
        ensures
            r == (self@.len() == 0),
    {
        self.inner.len() == 0
    }

    /// The number of values on the stack.
    pub fn len(&self) -> (r: usize)
        ensures
            r == self@.len(),
    {
        self.inner.len()
    }

    /// The values, from the bottom to the top.
    pub fn as_slice(&self) -> (r: &[T])
        ensures
            r@ == self@,
    {
        self.inner.as_slice()
    }

    /// Puts `value` on top.
    pub fn push(&mut self, value: T)
        ensures
            final(self)@ == old(self)@.push(value),
    {
        self.inner.push(value);
    }

    /// Takes the `n` topmost values off, the topmost first in the result.
    /// With fewer than `n` values, returns `None` and leaves the stack as it is.
    pub fn pop(&mut self, n: usize) -> (r: Option<Vec<T>>)
        ensures
            n > old(self)@.len() ==> r is None && final(self)@ == old(self)@,
            n <= old(self)@.len() ==> r is Some
                && r->Some_0@ == top_first(old(self)@, n as nat)
                && final(self)@ == old(self)@.subrange(0, old(self)@.len() - n),
    {
        if n > self.inner.len() {
            return None;
        }
        let ghost s0 = self.inner@;
        let mut out: Vec<T> = Vec::new();
        let mut i: usize = 0;
        while i < n
            invariant
                n <= s0.len(),
                i <= n,
                self.inner@ == s0.subrange(0, s0.len() - i),
                out@ == top_first(s0, i as nat),
            decreases n - i,
        {
            let v = self.inner.pop().unwrap();
            out.push(v);
            i = i + 1;
            assert(out@ =~= top_first(s0, i as nat));
            assert(self.inner@ =~= s0.subrange(0, s0.len() - i));
        }
        Some(out)
    }
}

} // verus!
