//! The target of a client, and how an endpoint's path is joined to it.

use crate::text::{chars_of, push_range};
use vstd::prelude::*;

verus! {

/// Whether `url::Url::parse` accepts `address`, that is, whether the text is
/// a well-formed absolute address.
pub uninterp spec fn is_absolute_url(address: Seq<char>) -> bool;

/// `url::Url::parse`: tells whether the parser accepts `address`.
#[verifier::external_body]
pub(crate) fn parses_as_url(address: &str) -> (accepted: bool)
    ensures
        accepted == is_absolute_url(address@),
{
    url::Url::parse(address).is_ok()
}

/// `s` without the slashes at its end.
pub open spec fn without_trailing_slashes(s: Seq<char>) -> Seq<char>
    decreases s.len(),
{
    if s.len() > 0 && s.last() == '/' {
        without_trailing_slashes(s.drop_last())
    } else {
        s
    }
}

/// `s` without the slashes at its start.
pub open spec fn without_leading_slashes(s: Seq<char>) -> Seq<char>
    decreases s.len(),
{
    if s.len() > 0 && s[0] == '/' {
        without_leading_slashes(s.drop_first())
    } else {
        s
    }
}

/// The base address and the path with exactly one slash between them.
pub open spec fn joined(base: Seq<char>, path: Seq<char>) -> Seq<char> {
    without_trailing_slashes(base) + seq!['/'] + without_leading_slashes(path)
}

/// The base address of the production service.
pub open spec fn production_address() -> Seq<char> {
    "https://api.cloudflare.com/client/v4/"@
}

/// Where a client sends its requests.
#[derive(Debug)]
pub enum Environment {
    /// The production service, at its well-known address.
    Production,
    /// Another service, at the address given.
    Custom(String),
}

impl Environment {
    /// The base address this environment stands for.
    pub open spec fn base_address(self) -> Seq<char> {
        match self {
            Environment::Production => production_address(),
            Environment::Custom(address) => address@,
        }
    }

    /// The address of `path` in this environment.
    pub open spec fn address_of(self, path: Seq<char>) -> Seq<char> {
        joined(self.base_address(), path)
    }

    /// Resolves the environment to its base address.
    pub fn resolve(&self) -> (address: String)
        ensures
            address@ == self.base_address(),
    {
        match self {
            Environment::Production => "https://api.cloudflare.com/client/v4/".to_owned(),
            Environment::Custom(address) => address.clone(),
        }
    }

    /// The address of `path` in this environment, if it is a well-formed
    /// absolute address.
    pub fn endpoint_url(&self, path: &str) -> (url: Option<String>)
        ensures
            url is Some <==> is_absolute_url(self.address_of(path@)),
            url matches Some(address) ==> address@ == self.address_of(path@),
    {
        let base = self.resolve();
        let address = join(base.as_str(), path);
        if parses_as_url(address.as_str()) {
            Some(address)
        } else {
            None
        }
    }
}

/// Joins a path to a base address: the slashes at the end of the base and at
/// the start of the path give way to a single one.
pub fn join(base: &str, path: &str) -> (address: String)
    ensures
        address@ == joined(base@, path@),
{
    let base_chars = chars_of(base);
    let path_chars = chars_of(path);
    let mut end: usize = base_chars.len();
    assert(base_chars@.take(end as int) == base_chars@);
    while end > 0 && base_chars[end - 1] == '/'
        invariant
            end <= base_chars.len(),
            without_trailing_slashes(base_chars@) == without_trailing_slashes(
                base_chars@.take(end as int),
            ),
        decreases end,
    {
        assert(base_chars@.take(end as int).drop_last() == base_chars@.take(end - 1));
        end -= 1;
    }
    let mut start: usize = 0;
    assert(path_chars@.skip(0) == path_chars@);
    while start < path_chars.len() && path_chars[start] == '/'
        invariant
            start <= path_chars.len(),
            without_leading_slashes(path_chars@) == without_leading_slashes(
                path_chars@.skip(start as int),
            ),
        decreases path_chars.len() - start,
    {
        assert(path_chars@.skip(start as int).drop_first() == path_chars@.skip(start + 1));
        start += 1;
    }
    let mut address = String::new();
    push_range(&mut address, &base_chars, 0, end);
    address.push('/');
    push_range(&mut address, &path_chars, start, path_chars.len());
    proof {
        assert(base_chars@.take(end as int) == base_chars@.subrange(0, end as int));
        assert(path_chars@.skip(start as int) == path_chars@.subrange(
            start as int,
            path_chars.len() as int,
        ));
        assert(address@ == joined(base@, path@));
    }
    address
}

/// The joined address has exactly one slash where base and path meet: the
/// sides of that slash do not end, nor begin, with another.
pub proof fn lemma_single_separator(base: Seq<char>, path: Seq<char>)
    ensures
        ({
            let head = without_trailing_slashes(base);
            let tail = without_leading_slashes(path);
            let address = joined(base, path);
            let at = head.len() as int;
            &&& address.len() == at + 1 + tail.len()
            &&& address.subrange(0, at) == head
            &&& address[at] == '/'
            &&& address.subrange(at + 1, address.len() as int) == tail
            &&& at > 0 ==> address[at - 1] != '/'
            &&& tail.len() > 0 ==> address[at + 1] != '/'
        }),
{
    lemma_trailing_trimmed(base);
    lemma_leading_trimmed(path);
}

/// What is left after the trailing slashes are removed is a prefix that does
/// not end with a slash, and only slashes were removed.
pub proof fn lemma_trailing_trimmed(s: Seq<char>)
    ensures
        ({
            let head = without_trailing_slashes(s);
            &&& head.len() <= s.len()
            &&& head == s.take(head.len() as int)
            &&& head.len() > 0 ==> head.last() != '/'
            &&& forall|i: int| head.len() <= i < s.len() ==> s[i] == '/'
        }),
    decreases s.len(),
{
    if s.len() > 0 && s.last() == '/' {
        let rest = s.drop_last();
        lemma_trailing_trimmed(rest);
        let head = without_trailing_slashes(rest);
        assert(rest.take(head.len() as int) == s.take(head.len() as int));
        assert forall|i: int| head.len() <= i < s.len() implies s[i] == '/' by {
            if i < rest.len() {
                assert(s[i] == rest[i]);
            }
        }
    } else {
        assert(s.take(s.len() as int) == s);
    }
}

/// What is left after the leading slashes are removed is a suffix that does
/// not begin with a slash, and only slashes were removed.
pub proof fn lemma_leading_trimmed(s: Seq<char>)
    ensures
        ({
            let tail = without_leading_slashes(s);
            &&& tail.len() <= s.len()
            &&& tail == s.skip(s.len() - tail.len())
            &&& tail.len() > 0 ==> tail[0] != '/'
            &&& forall|i: int| 0 <= i < s.len() - tail.len() ==> s[i] == '/'
        }),
    decreases s.len(),
{
    if s.len() > 0 && s[0] == '/' {
        let rest = s.drop_first();
        lemma_leading_trimmed(rest);
        let tail = without_leading_slashes(rest);
        assert(rest.skip(rest.len() - tail.len()) == s.skip(s.len() - tail.len()));
        assert forall|i: int| 0 <= i < s.len() - tail.len() implies s[i] == '/' by {
            if i > 0 {
                assert(s[i] == rest[i - 1]);
            }
        }
    } else {
        assert(s.skip(0) == s);
    }
}

} // verus!
