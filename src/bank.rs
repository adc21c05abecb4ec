use vstd::prelude::*;

verus! {

/// The channels after a resize to `n`: the first entries kept by index,
/// new ones equal to `fresh`.
pub open spec fn resized<T>(channels: Seq<T>, n: nat, fresh: T) -> Seq<T> {
    Seq::new(n, |i: int| if i < channels.len() { channels[i] } else { fresh })
}

/// One filter per audio channel, indexed by channel.
pub struct FilterBank<T> {
    channels: Vec<T>,
    /// Room for the next generation of channels, kept between updates so
    /// that a broadcast does not allocate once the bank has its size.
    spare: Vec<T>,
}

impl<T> View for FilterBank<T> {
    type V = Seq<T>;

    closed spec fn view(&self) -> Seq<T> {
        self.channels@
    }
}

impl<T: Copy> FilterBank<T> {
    /// A bank with no channel.
    pub fn new() -> (r: Self)
        ensures
            r@ == Seq::<T>::empty(),
    {
        FilterBank { channels: Vec::new(), spare: Vec::new() }
    }

    pub fn len(&self) -> (r: usize)
        ensures
            r == self@.len(),
    {
        self.channels.len()
    }

    /// The filter of channel `i`.
    pub fn get(&self, i: usize) -> (r: T)
        requires
            i < self@.len(),
        ensures
            r == self@[i as int],
    {
        self.channels[i]
    }

    /// Replaces the filter of channel `i`.
    pub fn set(&mut self, i: usize, filter: T)
        requires
            i < old(self)@.len(),
        ensures
            final(self)@ == old(self)@.update(i as int, filter),
    {
        self.channels.set(i, filter);
    }

    /// Grows or shrinks the bank to exactly `n` channels. Channels below
    /// both the old and the new count keep their filter and its state; new
    /// channels start as `fresh`.
    pub fn resize(&mut self, n: usize, fresh: T)
        ensures
            final(self)@ == resized(old(self)@, n as nat, fresh),
    {
        if n < self.channels.len() {
            self.channels.truncate(n);
        }
        while self.channels.len() < n
            invariant
                self.channels@.len() <= n,
                self.channels@.len() >= old(self)@.len() || self.channels@.len() >= n,
                forall|i: int|
                    0 <= i < self.channels@.len() ==> self.channels@[i] == resized(
                        old(self)@,
                        n as nat,
                        fresh,
                    )[i],
            decreases n - self.channels@.len(),
        {
            self.channels.push(fresh);
        }
        assert(self.channels@ =~= resized(old(self)@, n as nat, fresh));
    }

    /// Applies `update` to every channel, all or nothing: where it fails on
    /// some channel, its error on one such channel comes back and no channel is
    /// changed; otherwise every channel holds what `update` made of it.
    pub fn try_update_all<E, F: Fn(T) -> Result<T, E>>(&mut self, update: F) -> (r: Result<(), E>)
        requires
            forall|t: T| update.requires((t,)),
        ensures
            r is Err ==> final(self)@ == old(self)@,
            r matches Err(e) ==> exists|i: int|
                0 <= i < old(self)@.len() && update.ensures((old(self)@[i],), Err::<T, E>(e)),
            r is Ok ==> final(self)@.len() == old(self)@.len() && forall|i: int|
                0 <= i < old(self)@.len() ==> update.ensures(
                    (old(self)@[i],),
                    Ok::<T, E>(#[trigger] final(self)@[i]),
                ),
    {
        self.spare.clear();
        let mut i: usize = 0;
        while i < self.channels.len()
            invariant
                i <= self.channels@.len(),
                self.channels@ == old(self)@,
                self.spare@.len() == i,
                forall|j: int|
                    0 <= j < i ==> update.ensures(
                        (old(self)@[j],),
                        Ok::<T, E>(#[trigger] self.spare@[j]),
                    ),
                forall|t: T| update.requires((t,)),
            decreases self.channels@.len() - i,
        {
            match update(self.channels[i]) {
                Ok(t) => self.spare.push(t),
                Err(e) => return Err(e),
            }
            i = i + 1;
        }
        std::mem::swap(&mut self.channels, &mut self.spare);
        Ok(())
    }
}

/// Shrinking keeps every remaining channel as it was, state included.
pub proof fn lemma_shrink_keeps_channels<T>(channels: Seq<T>, n: nat, fresh: T)
    requires
        n <= channels.len(),
    ensures
        resized(channels, n, fresh) == channels.subrange(0, n as int),
{
    assert(resized(channels, n, fresh) =~= channels.subrange(0, n as int));
}

/// Over two resizes in a row, a channel below all three counts is the one
/// that was there before; one added by the first resize and still below the
/// second count is the first resize's fresh filter.
pub proof fn lemma_resize_twice<T>(channels: Seq<T>, a: nat, b: nat, fresh_a: T, fresh_b: T)
    ensures
        resized(resized(channels, a, fresh_a), b, fresh_b).len() == b,
        forall|i: int|
            0 <= i < channels.len() && i < a && i < b ==> #[trigger] resized(
                resized(channels, a, fresh_a),
                b,
                fresh_b,
            )[i] == channels[i],
        forall|i: int|
            channels.len() <= i < a && i < b ==> #[trigger] resized(
                resized(channels, a, fresh_a),
                b,
                fresh_b,
            )[i] == fresh_a,
{
}

} // verus!
