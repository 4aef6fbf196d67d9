//! Account data with a discriminator, tolerant of accounts that are shorter than
//! the current layout: the missing tail counts as zeros.

use vstd::prelude::*;

use crate::errors::DecodeError;

verus! {

/// A kind of account with a fixed layout.
pub trait AccountState: Sized {
    /// The bytes of the whole account, discriminator first.
    spec fn encoded(&self) -> Seq<u8>;

    /// The eight bytes that tell this kind of account from others.
    spec fn tag() -> Seq<u8>;

    /// The number of bytes of an account in the current layout.
    spec fn size() -> nat;

    /// Accounts have the stated size and start with the tag.
    proof fn lemma_layout(&self)
        ensures
            Self::tag().len() == 8 <= Self::size(),
            self.encoded().len() == Self::size(),
            self.encoded().take(8) == Self::tag(),
    ;

    /// The bytes determine the account.
    proof fn lemma_injective(&self, other: &Self)
        requires
            self.encoded() == other.encoded(),
        ensures
            *self == *other,
    ;

    /// The discriminator.
    fn discriminator() -> (r: [u8; 8])
        ensures
            r@ == Self::tag(),
    ;

    /// The size of an account in the current layout.
    fn canonical_len() -> (r: usize)
        ensures
            r == Self::size(),
            r >= 8,
    ;

    /// Reads the fields after the discriminator.
    fn read_fields(data: &[u8]) -> (r: Option<Self>)
        requires
            data@.len() >= Self::size(),
        ensures
            match r {
                Some(state) => state.encoded().skip(8) == data@.subrange(8, Self::size() as int),
                None => forall|state: Self|
                    (#[trigger] state.encoded()).skip(8) != data@.subrange(8, Self::size() as int),
            },
    ;

    /// Writes the whole account.
    fn to_account_bytes(&self) -> (r: Vec<u8>)
        ensures
            r@ == self.encoded(),
    ;
}

/// `data` extended by zeros to `size` bytes, where it is shorter.
pub open spec fn zero_padded(data: Seq<u8>, size: nat) -> Seq<u8> {
    if data.len() >= size {
        data
    } else {
        data + Seq::new((size - data.len()) as nat, |i: int| 0u8)
    }
}

/// Whether `data`, zero-padded, starts with the account `state`.
pub open spec fn holds_account<T: AccountState>(data: Seq<u8>, state: T) -> bool {
    zero_padded(data, T::size()).take(T::size() as int) == state.encoded()
}

/// Whether `data`, zero-padded, starts with the fields of `state` after any discriminator.
pub open spec fn holds_fields<T: AccountState>(data: Seq<u8>, state: T) -> bool {
    zero_padded(data, T::size()).subrange(8, T::size() as int) == state.encoded().skip(8)
}

/// `data` extended by zeros to `size` bytes, where it is shorter.
fn zero_pad(data: &[u8], size: usize) -> (r: Vec<u8>)
    ensures
        r@ == zero_padded(data@, size as nat),
{
    let mut padded: Vec<u8> = Vec::new();
    crate::bytes::push_bytes(&mut padded, data);
    assert(padded@ =~= data@);
    while padded.len() < size
        invariant
            zero_padded(padded@, size as nat) == zero_padded(data@, size as nat),
        decreases size - padded@.len(),
    {
        let ghost before = padded@;
        padded.push(0);
        assert(zero_padded(padded@, size as nat) =~= zero_padded(before, size as nat));
    }
    padded
}

/// An account as read from the chain.
#[derive(Clone, Copy, Debug, PartialEq, Eq)]
pub struct AccountWrapper<T>(pub T);

impl<T> AccountWrapper<T> {
    pub fn new(inner: T) -> (r: Self)
        ensures
            r.0 == inner,
    {
        AccountWrapper(inner)
    }

    pub fn into_inner(self) -> (r: T)
        ensures
            r == self.0,
    {
        self.0
    }
}

impl<T> std::ops::Deref for AccountWrapper<T> {
    type Target = T;

    fn deref(&self) -> (r: &T)
        ensures
            *r == self.0,
    {
        &self.0
    }
}

impl<T> From<T> for AccountWrapper<T> {
    fn from(inner: T) -> (r: Self) {
        AccountWrapper(inner)
    }
}

impl<T> vstd::std_specs::convert::FromSpecImpl<T> for AccountWrapper<T> {
    open spec fn obeys_from_spec() -> bool {
        true
    }

    open spec fn from_spec(inner: T) -> Self {
        AccountWrapper(inner)
    }
}

impl<T: Default> Default for AccountWrapper<T> {
    fn default() -> (r: Self)
        ensures
            call_ensures(T::default, (), r.0),
    {
        AccountWrapper(T::default())
    }
}

/// Whether `r` is what reading an account out of `data` gives: the account that the
/// zero-padded data holds, or why it holds none.
pub open spec fn read_of<T: AccountState>(
    data: Seq<u8>,
    r: Result<AccountWrapper<T>, DecodeError>,
) -> bool {
    match r {
        Ok(account) => holds_account(data, account.0),
        Err(DecodeError::WrongDiscriminator) => zero_padded(data, T::size()).take(8) != T::tag(),
        Err(DecodeError::Malformed) => {
            &&& zero_padded(data, T::size()).take(8) == T::tag()
            &&& forall|state: T| !#[trigger] holds_account(data, state)
        },
    }
}

/// What a reader leaves of the buffer `before`: nothing of a short account that it
/// could read. A whole account, or one that it could not read, it does not consume.
pub open spec fn left_of<T: AccountState>(before: Seq<u8>, read: bool) -> Seq<u8> {
    if read && before.len() < T::size() {
        Seq::empty()
    } else {
        before
    }
}

/// Consumes the buffer where it holds a short account.
fn consume_short<T: AccountState>(buf: &mut &[u8])
    ensures
        final(buf)@ == left_of::<T>(old(buf)@, true),
{
    if buf.len() < T::canonical_len() {
        let len: usize = buf.len();
        *buf = vstd::slice::slice_subrange(*buf, len, len);
        assert(buf@ =~= Seq::<u8>::empty());
    }
}

impl<T: AccountState> AccountWrapper<T> {
    /// Reads an account. Data shorter than the current layout is zero-padded first,
    /// and consumed where it holds an account; data beyond the layout is ignored.
    pub fn try_deserialize(buf: &mut &[u8]) -> (r: Result<Self, DecodeError>)
        ensures
            final(buf)@ == left_of::<T>(old(buf)@, r is Ok),
            read_of(old(buf)@, r),
    {
        let r = Self::read(*buf);
        if r.is_ok() {
            consume_short::<T>(buf);
        }
        r
    }

    /// As [`AccountWrapper::try_deserialize`], whatever the discriminator.
    pub fn try_deserialize_unchecked(buf: &mut &[u8]) -> (r: Result<Self, DecodeError>)
        ensures
            final(buf)@ == left_of::<T>(old(buf)@, r is Ok),
            match r {
                Ok(account) => holds_fields(old(buf)@, account.0),
                Err(e) => e == DecodeError::Malformed && forall|state: T|
                    !#[trigger] holds_fields(old(buf)@, state),
            },
    {
        let r = Self::read_unchecked(*buf);
        if r.is_ok() {
            consume_short::<T>(buf);
        }
        r
    }

    /// Reads an account out of `data`.
    fn read(data: &[u8]) -> (r: Result<Self, DecodeError>)
        ensures
            read_of(data@, r),
    {
        let padded = zero_pad(data, T::canonical_len());
        let tag = T::discriminator();
        let mut i: usize = 0;
        while i < 8
            invariant
                i <= 8,
                padded@ == zero_padded(data@, T::size()),
                padded@.len() >= T::size() >= 8,
                tag@ == T::tag(),
                forall|j: int| 0 <= j < i ==> padded@[j] == tag@[j],
            decreases 8 - i,
        {
            if padded[i] != tag[i] {
                assert(padded@.take(8)[i as int] != tag@[i as int]);
                return Err(DecodeError::WrongDiscriminator);
            }
            i = i + 1;
        }
        assert(padded@.take(8) =~= tag@);
        let ghost size = T::size() as int;
        let ghost whole = padded@.take(size);
        assert(whole =~= padded@.take(8) + padded@.subrange(8, size));
        match T::read_fields(padded.as_slice()) {
            Some(state) => {
                proof {
                    state.lemma_layout();
                    assert(state.encoded() =~= state.encoded().take(8) + state.encoded().skip(8));
                }
                Ok(AccountWrapper(state))
            },
            None => {
                assert forall|state: T| !#[trigger] holds_account(data@, state) by {
                    if holds_account(data@, state) {
                        assert(whole.skip(8) =~= padded@.subrange(8, size));
                        assert(state.encoded().skip(8) == padded@.subrange(8, size));
                    }
                }
                Err(DecodeError::Malformed)
            },
        }
    }

    /// Reads the fields of an account out of `data`.
    fn read_unchecked(data: &[u8]) -> (r: Result<Self, DecodeError>)
        ensures
            match r {
                Ok(account) => holds_fields(data@, account.0),
                Err(e) => e == DecodeError::Malformed && forall|state: T|
                    !#[trigger] holds_fields(data@, state),
            },
    {
        let padded = zero_pad(data, T::canonical_len());
        match T::read_fields(padded.as_slice()) {
            Some(state) => Ok(AccountWrapper(state)),
            None => {
                assert forall|state: T| !#[trigger] holds_fields(data@, state) by {
                    assert(state.encoded().skip(8) != padded@.subrange(8, T::size() as int));
                }
                Err(DecodeError::Malformed)
            },
        }
    }
}

/// Reading back a written account gives the account: `data` holds exactly one, whatever
/// follows it.
pub proof fn law_account_round_trip<T: AccountState>(state: T, rest: Seq<u8>)
    ensures
        holds_account(state.encoded() + rest, state),
        forall|other: T| #[trigger] holds_account(state.encoded() + rest, other) ==> other == state,
{
    state.lemma_layout();
    let data = state.encoded() + rest;
    assert(zero_padded(data, T::size()) == data);
    assert(data.take(T::size() as int) =~= state.encoded());
    assert forall|other: T| #[trigger] holds_account(data, other) implies other == state by {
        other.lemma_injective(&state);
    }
}

/// A short account reads as the same account with a tail of zeros.
pub proof fn law_short_account_is_zero_padded<T: AccountState>(data: Seq<u8>, state: T)
    requires
        data.len() <= T::size(),
    ensures
        holds_account(data, state) <==> holds_account(zero_padded(data, T::size()), state),
{
    let padded = zero_padded(data, T::size());
    assert(zero_padded(padded, T::size()) == padded);
}

/// Reading without a look at the discriminator is reading the same data with the right
/// one.
pub proof fn law_unchecked_read_ignores_the_tag<T: AccountState>(data: Seq<u8>, state: T)
    requires
        data.len() >= 8,
    ensures
        holds_fields(data, state) <==> holds_account(T::tag() + data.skip(8), state),
{
    state.lemma_layout();
    let size = T::size();
    let tagged = T::tag() + data.skip(8);
    let plain = zero_padded(data, size);
    let whole = zero_padded(tagged, size);
    assert(whole =~= T::tag() + plain.skip(8));
    assert(plain.subrange(8, size as int) =~= whole.take(size as int).skip(8));
    assert(whole.take(size as int).take(8) =~= T::tag());
    let e = state.encoded();
    assert(e =~= e.take(8) + e.skip(8));
    assert(whole.take(size as int) =~= whole.take(size as int).take(8) + whole.take(
        size as int,
    ).skip(8));
}

/// A reader takes the buffer of a short account that it could read, all of it, and
/// leaves any other buffer as it is.
pub proof fn law_only_short_accounts_are_consumed<T: AccountState>(buffer: Seq<u8>, read: bool)
    ensures
        read && buffer.len() < T::size() ==> left_of::<T>(buffer, read).len() == 0,
        !read || buffer.len() >= T::size() ==> left_of::<T>(buffer, read) == buffer,
{
}

/// What is read is the account whose bytes stand at the start of the data, zeros taken
/// for what is missing. Another tag is reported as such, whatever follows it; with the
/// right tag only data that no account has is malformed.
pub proof fn law_read_is_at_the_start<T: AccountState>(
    data: Seq<u8>,
    r: Result<AccountWrapper<T>, DecodeError>,
)
    requires
        read_of(data, r),
    ensures
        r matches Ok(account) ==> forall|i: int|
            0 <= i < T::size() ==> (#[trigger] account.0.encoded()[i]) == (if i < data.len() {
                data[i]
            } else {
                0
            }),
        r == Err::<AccountWrapper<T>, DecodeError>(DecodeError::WrongDiscriminator)
            ==> zero_padded(data, 8).take(8) != T::tag(),
        r == Err::<AccountWrapper<T>, DecodeError>(DecodeError::Malformed) ==> zero_padded(
            data,
            8,
        ).take(8) == T::tag() && forall|state: T| !#[trigger] holds_account(data, state),
{
    let padded = zero_padded(data, T::size());
    if let Ok(account) = r {
        account.0.lemma_layout();
        assert forall|i: int| 0 <= i < T::size() implies (#[trigger] account.0.encoded()[i]) == (
        if i < data.len() {
            data[i]
        } else {
            0
        }) by {
            assert(padded.take(T::size() as int)[i] == padded[i]);
        }
    }
    vstd::pervasive::arbitrary::<T>().lemma_layout();
    assert(zero_padded(data, 8).take(8) =~= padded.take(8));
}

} // verus!
