//! The cache of access tokens, one per account.
//!
//! A token is handed out from the cache as long as it has not expired.
//! Otherwise a new one has to be fetched; what the fetch returns replaces
//! whatever the cache held for the account.

use crate::rest::{Error, Method, RestRequest};
use crate::time::Timestamp;
use vstd::prelude::*;

verus! {

/// An access token and the time from which it is no longer valid.
#[derive(Debug, PartialEq, Eq)]
pub struct AccessTokenData {
    pub access_token: String,
    pub expiry: Timestamp,
}

impl Clone for AccessTokenData {
    fn clone(&self) -> (copy: Self)
        ensures
            copy == *self,
    {
        AccessTokenData { access_token: self.access_token.clone(), expiry: self.expiry }
    }
}

impl AccessTokenData {
    /// A token has expired once its expiry is `now` or lies before it.
    pub open spec fn expired_at(self, now: Timestamp) -> bool {
        self.expiry.spec_at_or_before(now)
    }

    /// Whether the token has expired at `now`.
    pub fn is_expired(&self, now: Timestamp) -> (expired: bool)
        ensures
            expired == self.expired_at(now),
    {
        self.expiry.at_or_before(&now)
    }
}

/// The token that the cache holds for an account.
#[derive(Debug)]
pub struct TokenEntry {
    account: String,
    data: AccessTokenData,
}

/// The predicate that keeps the entries of accounts other than `account`.
pub closed spec fn other_account(account: Seq<char>) -> spec_fn(TokenEntry) -> bool {
    |entry: TokenEntry| entry.account@ != account
}

/// The cache that a list of entries stands for: a later entry replaces an
/// earlier one for the same account.
pub closed spec fn cache_of(entries: Seq<TokenEntry>) -> Map<Seq<char>, AccessTokenData>
    decreases entries.len(),
{
    if entries.len() == 0 {
        Map::empty()
    } else {
        cache_of(entries.drop_last()).insert(entries.last().account@, entries.last().data)
    }
}

/// The token to hand out from `cache` for `account` at `now`: the cached
/// one, unless there is none or it has expired.
pub open spec fn cached_token(
    cache: Map<Seq<char>, AccessTokenData>,
    account: Seq<char>,
    now: Timestamp,
) -> Option<String> {
    if cache.contains_key(account) && !cache[account].expired_at(now) {
        Some(cache[account].access_token)
    } else {
        None
    }
}

/// The cache after a fetch for `account`: a token that was fetched replaces
/// what was there, a failure leaves the cache as it was.
pub open spec fn cache_after_fetch(
    cache: Map<Seq<char>, AccessTokenData>,
    account: Seq<char>,
    fetched: Result<AccessTokenData, Error>,
) -> Map<Seq<char>, AccessTokenData> {
    match fetched {
        Ok(data) => cache.insert(account, data),
        Err(_) => cache,
    }
}

/// The cache after a request made with the token of `account` has failed,
/// or has not: a token that the API has turned down as invalid is dropped.
pub open spec fn cache_after_response(
    cache: Map<Seq<char>, AccessTokenData>,
    account: Seq<char>,
    failure: Option<&Error>,
) -> Map<Seq<char>, AccessTokenData> {
    match failure {
        Some(error) if error.spec_is_invalid_access_token() => cache.remove(account),
        _ => cache,
    }
}

/// What the caller gets after a fetch: the token that was fetched, or the
/// failure as it came.
pub open spec fn token_after_fetch(fetched: Result<AccessTokenData, Error>) -> Result<
    String,
    Error,
> {
    match fetched {
        Ok(data) => Ok(data.access_token),
        Err(error) => Err(error),
    }
}

/// The cache of access tokens.
#[derive(Debug)]
pub struct AccessTokenProxy {
    access_from_account: Vec<TokenEntry>,
}

impl View for AccessTokenProxy {
    type V = Map<Seq<char>, AccessTokenData>;

    closed spec fn view(&self) -> Map<Seq<char>, AccessTokenData> {
        cache_of(self.access_from_account@)
    }
}

impl AccessTokenProxy {
    /// A cache that holds no token.
    pub fn new() -> (proxy: AccessTokenProxy)
        ensures
            proxy@ == Map::<Seq<char>, AccessTokenData>::empty(),
    {
        AccessTokenProxy { access_from_account: Vec::new() }
    }

    /// The position of the entry that counts for `account`, if there is one.
    fn position(&self, account: &String) -> (found: Option<usize>)
        ensures
            match found {
                Some(i) => {
                    &&& i < self.access_from_account@.len()
                    &&& self.access_from_account@[i as int].account@ == account@
                    &&& self@.contains_key(account@)
                    &&& self@[account@] == self.access_from_account@[i as int].data
                },
                None => !self@.contains_key(account@),
            },
    {
        let mut i: usize = self.access_from_account.len();
        proof {
            assert(self.access_from_account@.take(i as int) == self.access_from_account@);
        }
        while i > 0
            invariant
                i <= self.access_from_account.len(),
                cache_of(self.access_from_account@).contains_key(account@) == cache_of(
                    self.access_from_account@.take(i as int),
                ).contains_key(account@),
                cache_of(self.access_from_account@).contains_key(account@) ==> cache_of(
                    self.access_from_account@,
                )[account@] == cache_of(self.access_from_account@.take(i as int))[account@],
            decreases i,
        {
            proof {
                let front = self.access_from_account@.take(i as int);
                assert(front.drop_last() == self.access_from_account@.take(i - 1));
                assert(front.last() == self.access_from_account@[i - 1]);
            }
            i = i - 1;
            if self.access_from_account[i].account == *account {
                return Some(i);
            }
        }
        None
    }

    /// The token to use for `account` at `now`, if the cache holds one that
    /// has not expired. `None` says that a new token has to be fetched.
    pub fn get_token(&self, account: &String, now: Timestamp) -> (token: Option<String>)
        ensures
            token == cached_token(self@, account@, now),
    {
        match self.position(account) {
            Some(i) => {
                let data = &self.access_from_account[i].data;
                if data.is_expired(now) {
                    None
                } else {
                    Some(data.access_token.clone())
                }
            },
            None => None,
        }
    }

    /// Takes what a fetch for `account` returned. A token replaces whatever
    /// the cache held for the account and is handed to the caller; a failure
    /// is handed to the caller as it came, and the cache stays as it was.
    pub fn request_new_token(
        &mut self,
        account: String,
        fetched: Result<AccessTokenData, Error>,
    ) -> (token: Result<String, Error>)
        ensures
            final(self)@ == cache_after_fetch(old(self)@, account@, fetched),
            token == token_after_fetch(fetched),
    {
        match fetched {
            Ok(data) => {
                let token = data.access_token.clone();
                self.store(account, data);
                Ok(token)
            },
            Err(error) => Err(error),
        }
    }

    /// The request that fetches a token for an account.
    pub fn fetch_access_token() -> (request: RestRequest)
        ensures
            request.path@ == "auth/token"@,
            request.method == Method::Post,
            !request.authenticated,
            request.expected_status == crate::rest::OK,
    {
        RestRequest {
            path: String::from_str("auth/token"),
            method: Method::Post,
            authenticated: false,
            expected_status: crate::rest::OK,
        }
    }

    /// Takes the failure of a request that was made with the token of
    /// `account`, if it failed. Where the API has turned the token down as
    /// invalid, the token is dropped from the cache, so that the next
    /// request fetches a new one.
    pub fn check_response(&mut self, account: &String, failure: Option<&Error>)
        ensures
            final(self)@ == cache_after_response(old(self)@, account@, failure),
    {
        let drop_token = match failure {
            Some(error) => error.is_invalid_access_token(),
            None => false,
        };
        if drop_token {
            self.keep_others(account);
        }
    }

    /// Drops whatever the cache holds for `account`.
    fn keep_others(&mut self, account: &String)
        ensures
            final(self)@ == old(self)@.remove(account@),
    {
        let ghost before = self.access_from_account@;
        let ghost mut seen: int = 0;
        let mut i: usize = 0;
        proof {
            reveal(Seq::filter);
            assert(before.take(0).filter(other_account(account@)) =~= Seq::<TokenEntry>::empty());
            assert(before.skip(0) =~= before);
        }
        while i < self.access_from_account.len()
            invariant
                0 <= seen <= before.len(),
                i == before.take(seen).filter(other_account(account@)).len(),
                self.access_from_account@ == before.take(seen).filter(other_account(account@))
                    + before.skip(seen),
            decreases before.len() - seen,
        {
            proof {
                let kept = before.take(seen).filter(other_account(account@));
                assert(self.access_from_account@[i as int] == before.skip(seen)[0]);
                assert(before.take(seen + 1) =~= before.take(seen).push(before[seen]));
                before.take(seen).lemma_filter_push(before[seen], other_account(account@));
                assert(before.skip(seen).drop_first() =~= before.skip(seen + 1));
                assert((kept + before.skip(seen)).remove(i as int) =~= kept + before.skip(
                    seen + 1,
                ));
                assert(kept.push(before[seen]) + before.skip(seen + 1) =~= kept + before.skip(
                    seen,
                ));
            }
            if self.access_from_account[i].account == *account {
                self.access_from_account.remove(i);
            } else {
                i = i + 1;
            }
            proof {
                seen = seen + 1;
            }
        }
        proof {
            let kept = before.take(seen).filter(other_account(account@));
            assert(seen == before.len()) by {
                assert((kept + before.skip(seen)).len() == kept.len() + before.len() - seen);
            }
            assert(before.take(seen) =~= before);
            assert(self.access_from_account@ =~= before.filter(other_account(account@)));
            lemma_cache_without(before, account@);
        }
    }

    /// Puts `data` in the place of whatever the cache held for `account`.
    fn store(&mut self, account: String, data: AccessTokenData)
        ensures
            final(self)@ == old(self)@.insert(account@, data),
    {
        self.keep_others(&account);
        proof {
            let others = self.access_from_account@;
            let entry = TokenEntry { account, data };
            assert(others.push(entry).drop_last() == others);
            assert(old(self)@.remove(account@).insert(account@, data) =~= old(self)@.insert(
                account@,
                data,
            ));
        }
        self.access_from_account.push(TokenEntry { account, data });
    }
}

/// Leaving out the entries of one account removes that account from the
/// cache and nothing else.
proof fn lemma_cache_without(entries: Seq<TokenEntry>, account: Seq<char>)
    ensures
        cache_of(entries.filter(other_account(account))) == cache_of(entries).remove(account),
    decreases entries.len(),
{
    reveal(Seq::filter);
    if entries.len() == 0 {
        assert(cache_of(entries).remove(account) =~= Map::empty());
    } else {
        let front = entries.drop_last();
        let last = entries.last();
        lemma_cache_without(front, account);
        let kept = front.filter(other_account(account));
        if last.account@ != account {
            assert(entries.filter(other_account(account)) == kept.push(last));
            assert(kept.push(last).drop_last() == kept);
            assert(cache_of(front).remove(account).insert(last.account@, last.data) =~= cache_of(
                front,
            ).insert(last.account@, last.data).remove(account));
        } else {
            assert(cache_of(front).remove(account) =~= cache_of(front).insert(
                account,
                last.data,
            ).remove(account));
        }
    }
}

/// A token that has expired is never handed out: what is handed out is the
/// token that the cache holds for the account, and its expiry lies ahead.
pub proof fn lemma_expired_token_is_never_handed_out(
    cache: Map<Seq<char>, AccessTokenData>,
    account: Seq<char>,
    now: Timestamp,
)
    ensures
        cached_token(cache, account, now) matches Some(token) ==> {
            &&& cache.contains_key(account)
            &&& cache[account].access_token == token
            &&& !cache[account].expiry.spec_at_or_before(now)
        },
        cache.contains_key(account) && cache[account].expired_at(now) ==> cached_token(
            cache,
            account,
            now,
        ) is None,
{
}

/// A token that was handed out is handed out again when it is asked for at
/// the same moment: the second call needs no fetch. This holds where the
/// first call found the token in the cache, and where it had to fetch one
/// that has not expired by then.
pub proof fn lemma_token_is_reused(
    cache: Map<Seq<char>, AccessTokenData>,
    account: Seq<char>,
    now: Timestamp,
    fetched: AccessTokenData,
)
    ensures
        cached_token(cache, account, now) is None && !fetched.expired_at(now) ==> cached_token(
            cache_after_fetch(cache, account, Ok(fetched)),
            account,
            now,
        ) == Some(fetched.access_token),
        cached_token(cache, account, now) is None ==> token_after_fetch(
            Ok::<AccessTokenData, Error>(fetched),
        ) == Ok::<String, Error>(fetched.access_token),
{
}

/// Once the token of an account has expired, the cache hands none out, so
/// a fetch is needed; what is fetched replaces the expired token and is
/// what the caller gets; and as long as that token has not expired, it is
/// handed out with no further fetch.
pub proof fn lemma_expired_token_is_replaced(
    cache: Map<Seq<char>, AccessTokenData>,
    account: Seq<char>,
    now: Timestamp,
    later: Timestamp,
    fresh: AccessTokenData,
)
    requires
        cache.contains_key(account),
        cache[account].expired_at(now),
        now.spec_at_or_before(later),
    ensures
        cached_token(cache, account, later) is None,
        cache_after_fetch(cache, account, Ok(fresh))[account] == fresh,
        token_after_fetch(Ok::<AccessTokenData, Error>(fresh)) == Ok::<String, Error>(
            fresh.access_token,
        ),
        !fresh.expired_at(later) ==> cached_token(
            cache_after_fetch(cache, account, Ok(fresh)),
            account,
            later,
        ) == Some(fresh.access_token),
{
}

/// A token that the API has turned down is not handed out again: the next
/// call has to fetch.
pub proof fn lemma_invalid_token_is_dropped(
    cache: Map<Seq<char>, AccessTokenData>,
    account: Seq<char>,
    failure: Error,
    now: Timestamp,
)
    requires
        failure.spec_is_invalid_access_token(),
    ensures
        cached_token(cache_after_response(cache, account, Some(&failure)), account, now) is None,
{
}

/// A fetch for one account leaves the tokens of the other accounts alone,
/// and a fetch that fails leaves every token alone.
pub proof fn lemma_fetch_touches_one_account(
    cache: Map<Seq<char>, AccessTokenData>,
    account: Seq<char>,
    other: Seq<char>,
    now: Timestamp,
    fetched: Result<AccessTokenData, Error>,
)
    ensures
        other != account ==> cached_token(cache_after_fetch(cache, account, fetched), other, now)
            == cached_token(cache, other, now),
        fetched is Err ==> cache_after_fetch(cache, account, fetched) == cache,
{
}

} // verus!
