//! The candidate addresses of the API host, and the one in use.

use crate::error::ErrorKind;
use crate::net::SocketAddress;
use vstd::prelude::*;
use vstd::seq_lib::to_multiset_update;

verus! {

/// The name of the file that keeps the candidate addresses between runs.
pub const API_IP_CACHE_FILENAME: &'static str = "api-ip-address.txt";

/// Why there is no address cache.
#[derive(Clone, Copy, Debug, PartialEq, Eq, Structural)]
pub enum AddressCacheError {
    /// There is no such file.
    NotFound,
    /// The file is there and could not be read.
    Read,
    /// A line of the file is no address.
    Parse,
    /// There is not one address to choose from.
    Empty,
}

impl AddressCacheError {
    /// A cache that cannot be had is a failure to read.
    pub fn kind(&self) -> (kind: ErrorKind)
        ensures
            kind == ErrorKind::Io,
    {
        ErrorKind::Io
    }
}

/// What reading a file of addresses came to.
#[derive(Debug, PartialEq, Eq)]
pub enum AddressFile {
    /// There is no such file.
    Missing,
    /// The file is there and could not be read.
    Unreadable,
    /// A line of the file is no address.
    Corrupt,
    /// The addresses that the file lists, in its order.
    Entries(Vec<SocketAddress>),
}

impl AddressFile {
    /// The addresses that the file gave, or why it gave none.
    pub open spec fn entries(self) -> Result<Seq<SocketAddress>, AddressCacheError> {
        match self {
            AddressFile::Missing => Err(AddressCacheError::NotFound),
            AddressFile::Unreadable => Err(AddressCacheError::Read),
            AddressFile::Corrupt => Err(AddressCacheError::Parse),
            AddressFile::Entries(list) => if list@.len() == 0 {
                Err(AddressCacheError::Empty)
            } else {
                Ok(list@)
            },
        }
    }
}

/// What the owner of the cache does after the address in use was set.
#[derive(Clone, Copy, Debug, PartialEq, Eq, Structural)]
pub struct AddressChange {
    /// The address to tell the change listener, where the address in use
    /// is another one than before.
    pub notify: Option<SocketAddress>,
    /// Whether the cache is to be written to disk.
    pub persist: bool,
}

/// The sequence `s` with the items at `i` and `j` exchanged.
pub open spec fn swapped(s: Seq<SocketAddress>, i: int, j: int) -> Seq<SocketAddress> {
    s.update(i, s[j]).update(j, s[i])
}

/// The addresses after the first `steps` exchanges of a reordering. The
/// exchanges go from the last position down; each takes one number of
/// `picks` and exchanges its position with one at or before it.
pub open spec fn shuffled_by(s: Seq<SocketAddress>, picks: Seq<u64>, steps: nat) -> Seq<
    SocketAddress,
>
    decreases steps,
{
    if steps == 0 {
        s
    } else {
        let before = shuffled_by(s, picks, (steps - 1) as nat);
        let i = s.len() - steps;
        swapped(before, i, (picks[steps - 1] as int) % (i + 1))
    }
}

/// How many exchanges a reordering of `len` addresses makes with `picks`
/// numbers at hand: one for each position but the first, as far as the
/// numbers go.
pub open spec fn shuffle_steps(len: nat, picks: nat) -> nat {
    if len <= 1 {
        0
    } else if picks < len - 1 {
        picks
    } else {
        (len - 1) as nat
    }
}

/// The addresses reordered by `picks`.
pub open spec fn shuffled(s: Seq<SocketAddress>, picks: Seq<u64>) -> Seq<SocketAddress> {
    shuffled_by(s, picks, shuffle_steps(s.len(), picks.len()))
}

/// The first position of `address` in `s`, or the length of `s` where it
/// does not occur.
pub open spec fn first_position(s: Seq<SocketAddress>, address: SocketAddress) -> int
    decreases s.len(),
{
    if s.len() == 0 {
        0
    } else if s[0] == address {
        0
    } else {
        1 + first_position(s.drop_first(), address)
    }
}

/// What an address cache holds, as plain values.
pub struct AddressCacheView {
    /// The candidates, in their order.
    pub addresses: Seq<SocketAddress>,
    /// The position of the address in use.
    pub choice: int,
    /// Whether changes are written to disk.
    pub write_changes: bool,
}

impl AddressCacheView {
    /// There is an address in use.
    pub open spec fn wf(self) -> bool {
        0 <= self.choice < self.addresses.len()
    }

    /// The address in use.
    pub open spec fn current(self) -> SocketAddress {
        self.addresses[self.choice]
    }

    /// The cache once `address` is the one in use: a candidate is chosen
    /// where it stands; an address that is none becomes the first candidate.
    pub open spec fn with_address(self, address: SocketAddress) -> AddressCacheView {
        if self.addresses.contains(address) {
            AddressCacheView {
                addresses: self.addresses,
                choice: first_position(self.addresses, address),
                write_changes: self.write_changes,
            }
        } else {
            AddressCacheView {
                addresses: seq![address] + self.addresses,
                choice: 0,
                write_changes: self.write_changes,
            }
        }
    }

    /// What follows from setting the address in use to `address`.
    pub open spec fn change_to(self, address: SocketAddress) -> AddressChange {
        if self.current() == address {
            AddressChange { notify: None, persist: false }
        } else {
            AddressChange { notify: Some(address), persist: self.write_changes }
        }
    }

    /// The cache with its candidates reordered by `picks`; the first of
    /// them is then the one in use.
    pub open spec fn randomized(self, picks: Seq<u64>) -> AddressCacheView {
        AddressCacheView {
            addresses: shuffled(self.addresses, picks),
            choice: 0,
            write_changes: self.write_changes,
        }
    }

    /// The list to write to disk: the address in use first, so that it is
    /// the first candidate when the list is read again, then the others in
    /// their order.
    pub open spec fn to_write(self) -> Seq<SocketAddress> {
        seq![self.current()] + self.addresses.remove(self.choice)
    }
}

/// The cache of a fixed endpoint: its one address, and nothing written.
pub open spec fn static_cache(addr: SocketAddress) -> AddressCacheView {
    AddressCacheView { addresses: seq![addr], choice: 0, write_changes: false }
}

/// The cache that a list of candidates makes, or why it makes none.
pub open spec fn cache_from(
    addresses: Seq<SocketAddress>,
    write_changes: bool,
) -> Result<AddressCacheView, AddressCacheError> {
    if addresses.len() == 0 {
        Err(AddressCacheError::Empty)
    } else {
        Ok(AddressCacheView { addresses, choice: 0, write_changes })
    }
}

/// The cache that a file of addresses makes, or why it makes none.
pub open spec fn cache_from_file(file: AddressFile, write_changes: bool) -> Result<
    AddressCacheView,
    AddressCacheError,
> {
    match file.entries() {
        Ok(addresses) => cache_from(addresses, write_changes),
        Err(error) => Err(error),
    }
}

/// The candidate addresses of the API host. One of them is in use.
#[derive(Debug)]
pub struct AddressCache {
    addresses: Vec<SocketAddress>,
    choice: usize,
    write_changes: bool,
}

impl View for AddressCache {
    type V = AddressCacheView;

    closed spec fn view(&self) -> AddressCacheView {
        AddressCacheView {
            addresses: self.addresses@,
            choice: self.choice as int,
            write_changes: self.write_changes,
        }
    }
}

impl AddressCache {
    /// There is an address in use.
    #[verifier::type_invariant]
    spec fn has_address_in_use(self) -> bool {
        self.choice < self.addresses@.len()
    }

    /// A cache of the given candidates, the first of them in use.
    pub fn new(addresses: Vec<SocketAddress>, write_changes: bool) -> (cache: Result<
        AddressCache,
        AddressCacheError,
    >)
        ensures
            match cache {
                Ok(made) => cache_from(addresses@, write_changes) == Ok::<
                    AddressCacheView,
                    AddressCacheError,
                >(made@) && made@.wf(),
                Err(error) => cache_from(addresses@, write_changes) == Err::<
                    AddressCacheView,
                    AddressCacheError,
                >(error),
            },
    {
        if addresses.len() == 0 {
            Err(AddressCacheError::Empty)
        } else {
            Ok(AddressCache { addresses, choice: 0, write_changes })
        }
    }

    /// The cache of a fixed endpoint.
    pub fn fixed(addr: SocketAddress) -> (cache: AddressCache)
        ensures
            cache@ == static_cache(addr),
            cache@.wf(),
    {
        let mut addresses: Vec<SocketAddress> = Vec::new();
        addresses.push(addr);
        assert(addresses@ =~= seq![addr]);
        AddressCache { addresses, choice: 0, write_changes: false }
    }

    /// A cache of the candidates that a file lists.
    pub fn from_file(file: AddressFile, write_changes: bool) -> (cache: Result<
        AddressCache,
        AddressCacheError,
    >)
        ensures
            match cache {
                Ok(made) => cache_from_file(file, write_changes) == Ok::<
                    AddressCacheView,
                    AddressCacheError,
                >(made@) && made@.wf(),
                Err(error) => cache_from_file(file, write_changes) == Err::<
                    AddressCacheView,
                    AddressCacheError,
                >(error),
            },
    {
        match file {
            AddressFile::Missing => Err(AddressCacheError::NotFound),
            AddressFile::Unreadable => Err(AddressCacheError::Read),
            AddressFile::Corrupt => Err(AddressCacheError::Parse),
            AddressFile::Entries(list) => Self::new(list, write_changes),
        }
    }

    /// The address in use.
    pub fn get_address(&self) -> (address: SocketAddress)
        ensures
            self@.wf(),
            address == self@.current(),
    {
        proof {
            use_type_invariant(self);
        }
        self.addresses[self.choice]
    }

    /// The number of candidates.
    pub fn len(&self) -> (n: usize)
        ensures
            n == self@.addresses.len(),
    {
        self.addresses.len()
    }

    /// Whether changes are written to disk.
    pub fn writes_changes(&self) -> (write_changes: bool)
        ensures
            write_changes == self@.write_changes,
    {
        self.write_changes
    }

    /// Makes `address`, which has proved reachable, the address in use, and
    /// says what follows from that.
    pub fn set_address(&mut self, address: SocketAddress) -> (change: AddressChange)
        ensures
            old(self)@.wf(),
            final(self)@ == old(self)@.with_address(address),
            final(self)@.wf(),
            final(self)@.current() == address,
            change == old(self)@.change_to(address),
    {
        proof {
            use_type_invariant(&*self);
        }
        let before = self.addresses[self.choice];
        let mut i: usize = 0;
        proof {
            assert(self.addresses@.skip(0) == self.addresses@);
        }
        while i < self.addresses.len() && self.addresses[i] != address
            invariant
                i <= self.addresses.len(),
                first_position(self.addresses@, address) == i + first_position(
                    self.addresses@.skip(i as int),
                    address,
                ),
                forall|k: int| 0 <= k < i ==> self.addresses@[k] != address,
            decreases self.addresses.len() - i,
        {
            proof {
                let rest = self.addresses@.skip(i as int);
                assert(rest.drop_first() == self.addresses@.skip(i + 1));
            }
            i = i + 1;
        }
        if i < self.addresses.len() {
            proof {
                assert(self.addresses@.skip(i as int)[0] == address);
                assert(self.addresses@[i as int] == address);
            }
            self.choice = i;
        } else {
            let mut list: Vec<SocketAddress> = Vec::new();
            list.push(address);
            let mut k: usize = 0;
            while k < self.addresses.len()
                invariant
                    k <= self.addresses.len(),
                    list@ == seq![address] + self.addresses@.take(k as int),
                decreases self.addresses.len() - k,
            {
                list.push(self.addresses[k]);
                proof {
                    assert(self.addresses@.take(k + 1) == self.addresses@.take(k as int).push(
                        self.addresses@[k as int],
                    ));
                }
                k = k + 1;
            }
            proof {
                assert(self.addresses@.take(k as int) == self.addresses@);
            }
            self.addresses = list;
            self.choice = 0;
        }
        if before == address {
            AddressChange { notify: None, persist: false }
        } else {
            AddressChange { notify: Some(address), persist: self.write_changes }
        }
    }

    /// Reorders the candidates by the numbers in `picks`, which the caller
    /// draws at random, and puts the first of them in use.
    pub fn randomize(&mut self, picks: &Vec<u64>)
        ensures
            old(self)@.wf(),
            final(self)@ == old(self)@.randomized(picks@),
            final(self)@.wf(),
    {
        proof {
            use_type_invariant(&*self);
        }
        let n = self.addresses.len();
        let mut list: Vec<SocketAddress> = Vec::new();
        let mut c: usize = 0;
        while c < n
            invariant
                n == self.addresses.len(),
                c <= n,
                list@ == self.addresses@.take(c as int),
            decreases n - c,
        {
            list.push(self.addresses[c]);
            proof {
                assert(self.addresses@.take(c + 1) =~= self.addresses@.take(c as int).push(
                    self.addresses@[c as int],
                ));
            }
            c = c + 1;
        }
        proof {
            assert(self.addresses@.take(c as int) =~= self.addresses@);
        }
        let mut k: usize = 0;
        while k < picks.len() && k + 1 < n
            invariant
                n == list.len(),
                n == old(self).addresses@.len(),
                k <= picks.len(),
                k == 0 || k + 1 <= n,
                list@ == shuffled_by(old(self).addresses@, picks@, k as nat),
            decreases n - k,
        {
            let i: usize = n - 1 - k;
            let j: usize = (picks[k] % ((i as u64) + 1)) as usize;
            let at_i = list[i];
            let at_j = list[j];
            list.set(i, at_j);
            list.set(j, at_i);
            k = k + 1;
        }
        self.addresses = list;
        self.choice = 0;
    }

    /// The list to write to disk.
    pub fn to_write(&self) -> (list: Vec<SocketAddress>)
        ensures
            self@.wf(),
            list@ == self@.to_write(),
    {
        proof {
            use_type_invariant(self);
        }
        let mut list: Vec<SocketAddress> = Vec::new();
        list.push(self.addresses[self.choice]);
        let mut k: usize = 0;
        while k < self.addresses.len()
            invariant
                k <= self.addresses.len(),
                self.choice < self.addresses.len(),
                list@ == seq![self.addresses@[self.choice as int]] + (if k <= self.choice {
                    self.addresses@.take(k as int)
                } else {
                    self.addresses@.remove(self.choice as int).take(k - 1)
                }),
            decreases self.addresses.len() - k,
        {
            if k != self.choice {
                list.push(self.addresses[k]);
            }
            proof {
                let all = self.addresses@;
                let c = self.choice as int;
                if k < c {
                    assert(all.take(k + 1) =~= all.take(k as int).push(all[k as int]));
                } else if k == c {
                    assert(all.remove(c).take(k as int) =~= all.take(k as int));
                } else {
                    assert(all.remove(c).take(k as int) =~= all.remove(c).take(k - 1).push(
                        all[k as int],
                    ));
                }
            }
            k = k + 1;
        }
        proof {
            let all = self.addresses@;
            let c = self.choice as int;
            assert(all.remove(c).take(k - 1) =~= all.remove(c));
        }
        list
    }
}

/// Reordering neither adds a candidate nor loses one.
pub proof fn lemma_shuffle_is_permutation(s: Seq<SocketAddress>, picks: Seq<u64>, steps: nat)
    requires
        steps < s.len() || steps == 0,
        steps <= picks.len(),
    ensures
        shuffled_by(s, picks, steps).len() == s.len(),
        shuffled_by(s, picks, steps).to_multiset() == s.to_multiset(),
    decreases steps,
{
    broadcast use vstd::multiset::group_multiset_axioms;

    if steps > 0 {
        lemma_shuffle_is_permutation(s, picks, (steps - 1) as nat);
        let before = shuffled_by(s, picks, (steps - 1) as nat);
        let i = s.len() - steps;
        let j = (picks[steps - 1] as int) % (i + 1);
        let half = before.update(i, before[j]);
        to_multiset_update(before, i, before[j]);
        to_multiset_update(half, j, before[i]);
        before.to_multiset_ensures();
        assert(before.to_multiset().count(before[i]) > 0);
        assert(half[j] == before[j]);
        assert(swapped(before, i, j).to_multiset() =~= before.to_multiset());
    }
}

/// A cache that is reordered holds the candidates that it held before.
pub proof fn lemma_randomized_keeps_candidates(cache: AddressCacheView, picks: Seq<u64>)
    requires
        cache.wf(),
    ensures
        cache.randomized(picks).wf(),
        cache.randomized(picks).addresses.to_multiset() == cache.addresses.to_multiset(),
        cache.randomized(picks).write_changes == cache.write_changes,
{
    lemma_shuffle_is_permutation(
        cache.addresses,
        picks,
        shuffle_steps(cache.addresses.len(), picks.len()),
    );
}

/// The first position of an address that occurs is a position at which it
/// stands, and it stands at none before.
pub proof fn lemma_first_position(s: Seq<SocketAddress>, address: SocketAddress)
    ensures
        0 <= first_position(s, address) <= s.len(),
        s.contains(address) <==> first_position(s, address) < s.len(),
        first_position(s, address) < s.len() ==> s[first_position(s, address)] == address,
        forall|k: int| 0 <= k < first_position(s, address) ==> s[k] != address,
    decreases s.len(),
{
    if s.len() > 0 && s[0] != address {
        let rest = s.drop_first();
        lemma_first_position(rest, address);
        assert forall|k: int| 0 <= k < first_position(s, address) implies s[k] != address by {
            if k > 0 {
                assert(s[k] == rest[k - 1]);
            }
        }
        if s.contains(address) {
            let k = choose|k: int| 0 <= k < s.len() && s[k] == address;
            assert(rest[k - 1] == address);
        }
        if first_position(rest, address) < rest.len() {
            assert(s[first_position(rest, address) + 1] == address);
        }
    } else if s.len() > 0 {
        assert(s[0] == address);
    }
}

/// Once an address is set, it is the one in use; no candidate is lost; and
/// the listener is told exactly where the address in use is a new one.
pub proof fn lemma_set_address(cache: AddressCacheView, address: SocketAddress)
    requires
        cache.wf(),
    ensures
        cache.with_address(address).wf(),
        cache.with_address(address).current() == address,
        forall|a: SocketAddress|
            cache.addresses.contains(a) ==> #[trigger] cache.with_address(address).addresses.contains(
                a,
            ),
        cache.change_to(address).notify is Some <==> cache.current() != address,
        cache.change_to(address).persist ==> cache.write_changes,
{
    lemma_first_position(cache.addresses, address);
    let after = cache.with_address(address);
    assert forall|a: SocketAddress| cache.addresses.contains(a) implies #[trigger] after.addresses.contains(
        a,
    ) by {
        if !cache.addresses.contains(address) {
            let k = choose|k: int| 0 <= k < cache.addresses.len() && cache.addresses[k] == a;
            assert(after.addresses[k + 1] == a);
        }
    }
}

} // verus!
