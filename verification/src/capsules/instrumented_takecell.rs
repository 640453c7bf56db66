use vstd::prelude::*;

verus! {

/// A potential value whose contents can be moved out of it or operated on
/// within a closure.  You can think of an `InstrumentedTakeCell` as an
/// `Option` --- attempts to take the value from inside it may fail by
/// returning `None`.
pub struct InstrumentedTakeCell<T> {
    val: Option<T>,
}

impl<T> View for InstrumentedTakeCell<T> {
    type V = Option<T>;

    closed spec fn view(&self) -> Option<T> {
        self.val
    }
}

/// The levels that `instrumented_map` drives on its timing pin (true is
/// high), in order, when the cell is full (`full`) or empty.
pub open spec fn instrumented_map_trace(full: bool) -> Seq<bool> {
    if full {
        seq![false, true, false, true, false, true, false, true, false, true]
    } else {
        seq![false, true, false, true]
    }
}

impl<T> InstrumentedTakeCell<T> {
    /// An empty cell.
    pub fn empty() -> (r: InstrumentedTakeCell<T>)
        ensures
            r@ is None,
    {
        InstrumentedTakeCell { val: None }
    }

    /// Creates a new `InstrumentedTakeCell` containing `value`
    pub fn new(value: T) -> (r: InstrumentedTakeCell<T>)
        ensures
            r@ == Some(value),
    {
        InstrumentedTakeCell { val: Some(value) }
    }

    pub fn is_none(&self) -> (r: bool)
        ensures
            r == self@ is None,
    {
        self.val.is_none()
    }

    pub fn is_some(&self) -> (r: bool)
        ensures
            r == self@ is Some,
    {
        self.val.is_some()
    }

    /// Takes the value out of the `InstrumentedTakeCell` leaving a `None` in it's place. If
    /// the value has already been taken elsewhere (and not `replace`ed), the
    /// returned `Option` will be empty.
    pub fn take(&mut self) -> (r: Option<T>)
        ensures
            r == old(self)@,
            final(self)@ is None,
    {
        self.val.take()
    }

    /// Sets the contents of the cell to `val`, dropping what it held.
    pub fn put(&mut self, val: Option<T>)
        ensures
            final(self)@ == val,
    {
        let _ = self.take();
        self.val = val;
    }

    /// Replaces the contents of the `InstrumentedTakeCell` with `val`. If the cell was not
    /// empty, the previous value is returned, otherwise `None` is returned.
    pub fn replace(&mut self, val: T) -> (r: Option<T>)
        ensures
            r == old(self)@,
            final(self)@ == Some(val),
    {
        let prev = self.take();
        self.val = Some(val);
        prev
    }

    /// Allows `closure` to borrow the contents of the `InstrumentedTakeCell` if-and-only-if
    /// it is not `take`n already. The state of the `InstrumentedTakeCell` is unchanged
    /// after the closure completes, but for what the closure did to the value.
    pub fn map<F, R>(&mut self, closure: F) -> (r: Option<R>) where F: FnOnce(&mut T) -> R
        requires
            old(self)@ matches Some(v) ==> forall|m: &mut T| *m == v ==> call_requires(closure, (m,)),
        ensures
            old(self)@ is None ==> r is None && final(self)@ is None,
            old(self)@ matches Some(v) ==> (r matches Some(x) && final(self)@ matches Some(w) && exists|
                m: &mut T,
            |
                *m == v && *final(m) == w && call_ensures(closure, (m,), x)),
    {
        let maybe_val = self.take();
        match maybe_val {
            Some(mut val) => {
                let res = closure(&mut val);
                self.replace(val);
                Some(res)
            },
            None => None,
        }
    }

    /// `map`, driving a timing pin around each of its steps so that their
    /// duration can be measured: it returns and leaves what `map` would
    /// (its first two clauses are those of `map`), and the levels driven are appended to `trace`, ending
    /// with the pin high.
    pub fn instrumented_map<F, R>(&mut self, closure: F, trace: &mut Vec<bool>) -> (r: Option<R>) where
        F: FnOnce(&mut T) -> R,
        requires
            old(self)@ matches Some(v) ==> forall|m: &mut T| *m == v ==> call_requires(closure, (m,)),
        ensures
            old(self)@ is None ==> r is None && final(self)@ is None,
            old(self)@ matches Some(v) ==> (r matches Some(x) && final(self)@ matches Some(w) && exists|
                m: &mut T,
            |
                *m == v && *final(m) == w && call_ensures(closure, (m,), x)),
            final(trace)@ == old(trace)@ + instrumented_map_trace(old(self)@ is Some),
    {
        trace.push(false);
        let maybe_val = self.take();
        trace.push(true);
        trace.push(false);
        let ret_val = match maybe_val {
            Some(mut val) => {
                trace.push(true);
                trace.push(false);
                let res = closure(&mut val);
                trace.push(true);
                trace.push(false);
                self.replace(val);
                trace.push(true);
                trace.push(false);
                Some(res)
            },
            None => None,
        };
        trace.push(true);
        assert(trace@ =~= old(trace)@ + instrumented_map_trace(old(self)@ is Some));
        ret_val
    }

    /// `closure` applied to the contents, which stay in the cell (with what
    /// the closure did to them); `default` where the cell is empty.
    pub fn map_or<F, R>(&mut self, default: R, closure: F) -> (r: R) where F: FnOnce(&mut T) -> R
        requires
            old(self)@ matches Some(v) ==> forall|m: &mut T| *m == v ==> call_requires(closure, (m,)),
        ensures
            old(self)@ is None ==> r == default && final(self)@ is None,
            old(self)@ matches Some(v) ==> (final(self)@ matches Some(w) && exists|m: &mut T|
                *m == v && *final(m) == w && call_ensures(closure, (m,), r)),
    {
        let maybe_val = self.take();
        match maybe_val {
            Some(mut val) => {
                let res = closure(&mut val);
                self.replace(val);
                res
            },
            None => default,
        }
    }

    /// Modifies the contents with `modify`, or fills an empty cell with the
    /// value `mkval` makes.
    pub fn modify_or_replace<F, G>(&mut self, modify: F, mkval: G) where
        F: FnOnce(&mut T),
        G: FnOnce() -> T,
        requires
            old(self)@ matches Some(v) ==> forall|m: &mut T| *m == v ==> call_requires(modify, (m,)),
            old(self)@ is None ==> call_requires(mkval, ()),
        ensures
            old(self)@ matches Some(v) ==> (final(self)@ matches Some(w) && exists|m: &mut T|
                *m == v && *final(m) == w && call_ensures(modify, (m,), ())),
            old(self)@ is None ==> (final(self)@ matches Some(w) && call_ensures(mkval, (), w)),
    {
        let val = match self.take() {
            Some(mut val) => {
                modify(&mut val);
                val
            },
            None => mkval(),
        };
        self.replace(val);
    }
}

} // verus!
