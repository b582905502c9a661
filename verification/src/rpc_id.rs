use vstd::prelude::*;
use vstd::string::StringExecFns;
use vstd::string::StrSliceExecFns;
use crate::error::Error;
use crate::matcher::Pattern;

verus! {

/// The pattern that every RPC name matches.
pub const NAME_PATTERN: &'static str = "^[a-z][a-z0-9_.]*[a-z0-9]$";

/// The pattern that every implementor matches.
pub const IMPLEMENTOR_PATTERN: &'static str = "^[a-z][a-z0-9_]*[a-z0-9]$";

/// A lower-case ASCII letter.
pub open spec fn is_lower(c: char) -> bool {
    'a' <= c && c <= 'z'
}

/// An ASCII digit.
pub open spec fn is_digit(c: char) -> bool {
    '0' <= c && c <= '9'
}

/// A character that may stand in an RPC name.
pub open spec fn is_name_char(c: char) -> bool {
    is_lower(c) || is_digit(c) || c == '_' || c == '.'
}

/// A character that may stand in an implementor.
pub open spec fn is_implementor_char(c: char) -> bool {
    is_lower(c) || is_digit(c) || c == '_'
}

/// The strings that `NAME_PATTERN` matches: at least two characters, the first a lower-case
/// letter, the last a lower-case letter or a digit, and all of them lower-case letters,
/// digits, `_` or `.`.
pub open spec fn name_syntax(s: Seq<char>) -> bool {
    &&& s.len() >= 2
    &&& is_lower(s[0])
    &&& (is_lower(s.last()) || is_digit(s.last()))
    &&& forall|j: int| 0 <= j < s.len() ==> #[trigger] is_name_char(s[j])
}

/// The strings that `IMPLEMENTOR_PATTERN` matches: as for names, but without `.`.
pub open spec fn implementor_syntax(s: Seq<char>) -> bool {
    &&& s.len() >= 2
    &&& is_lower(s[0])
    &&& (is_lower(s.last()) || is_digit(s.last()))
    &&& forall|j: int| 0 <= j < s.len() ==> #[trigger] is_implementor_char(s[j])
}

/// No character of `s` is a colon.
pub open spec fn colon_free(s: Seq<char>) -> bool {
    forall|j: int| 0 <= j < s.len() ==> s[j] != ':'
}

/// `k` is the position of the first colon in `s`.
pub open spec fn is_first_colon(s: Seq<char>, k: int) -> bool {
    &&& 0 <= k < s.len()
    &&& s[k] == ':'
    &&& colon_free(s.take(k))
}

/// The two parts of an identifier: what stands before its first colon and what follows it;
/// `None` when it holds no colon.
pub open spec fn identifier_parts(s: Seq<char>) -> Option<(Seq<char>, Seq<char>)> {
    if exists|k: int| is_first_colon(s, k) {
        let k = choose|k: int| is_first_colon(s, k);
        Some((s.take(k), s.skip(k + 1)))
    } else {
        None
    }
}

/// The name and implementor that an identifier stands for, when its parts are both valid.
pub open spec fn parse_identifier(s: Seq<char>) -> Option<(Seq<char>, Seq<char>)> {
    match identifier_parts(s) {
        Some((name, implementor)) => if name_syntax(name) && implementor_syntax(implementor) {
            Some((name, implementor))
        } else {
            None
        },
        None => None,
    }
}

/// The identifier written for a name and an implementor: `name:implementor`.
pub open spec fn format_identifier(name: Seq<char>, implementor: Seq<char>) -> Seq<char> {
    name + seq![':'] + implementor
}

/// The first colon of a sequence stands at one position only.
pub proof fn lemma_first_colon_unique(s: Seq<char>, k1: int, k2: int)
    requires
        is_first_colon(s, k1),
        is_first_colon(s, k2),
    ensures
        k1 == k2,
{
    if k1 < k2 {
        assert(s.take(k2)[k1] == s[k1]);
    } else if k2 < k1 {
        assert(s.take(k1)[k2] == s[k2]);
    }
}

/// An identifier with a colon splits at that colon's first occurrence.
proof fn lemma_parts_at(s: Seq<char>, k: int)
    requires
        is_first_colon(s, k),
    ensures
        identifier_parts(s) == Some((s.take(k), s.skip(k + 1))),
{
    let c = choose|c: int| is_first_colon(s, c);
    lemma_first_colon_unique(s, k, c);
}

/// Whatever an identifier is parsed into gives the identifier back when formatted, and its
/// name holds no colon.
pub proof fn lemma_parse_then_format(s: Seq<char>)
    requires
        parse_identifier(s) is Some,
    ensures
        ({
            let (name, implementor) = parse_identifier(s)->0;
            &&& format_identifier(name, implementor) == s
            &&& colon_free(name)
            &&& name_syntax(name)
            &&& implementor_syntax(implementor)
        }),
{
    let k = choose|k: int| is_first_colon(s, k);
    assert(format_identifier(s.take(k), s.skip(k + 1)) =~= s);
}

/// A valid name holds no colon.
pub proof fn lemma_name_colon_free(s: Seq<char>)
    requires
        name_syntax(s),
    ensures
        colon_free(s),
{
    assert forall|j: int| 0 <= j < s.len() implies s[j] != ':' by {
        assert(is_name_char(s[j]));
    }
}

/// A valid implementor holds neither a colon nor a dot.
pub proof fn lemma_implementor_has_no_colon_or_dot(s: Seq<char>)
    requires
        implementor_syntax(s),
    ensures
        forall|j: int| 0 <= j < s.len() ==> s[j] != ':' && s[j] != '.',
{
    assert forall|j: int| 0 <= j < s.len() implies s[j] != ':' && s[j] != '.' by {
        assert(is_implementor_char(s[j]));
    }
}

/// Every valid implementor is also a valid name.
pub proof fn lemma_implementor_is_name(s: Seq<char>)
    requires
        implementor_syntax(s),
    ensures
        name_syntax(s),
{
    assert forall|j: int| 0 <= j < s.len() implies #[trigger] is_name_char(s[j]) by {
        assert(is_implementor_char(s[j]));
    }
}

/// A sequence with a colon at `j` has a first colon, at or before `j`.
proof fn lemma_first_colon_exists(s: Seq<char>, j: int)
    requires
        0 <= j < s.len(),
        s[j] == ':',
    ensures
        exists|k: int| 0 <= k <= j && is_first_colon(s, k),
    decreases j,
{
    if colon_free(s.take(j)) {
        assert(is_first_colon(s, j));
    } else {
        let i = choose|i: int| 0 <= i < s.take(j).len() && s.take(j)[i] == ':';
        assert(s[i] == ':');
        lemma_first_colon_exists(s, i);
    }
}

/// Writing a name and an implementor as `name:implementor` and parsing the result gives back
/// that name and implementor exactly when both are valid, and nothing otherwise.
pub proof fn lemma_format_then_parse(name: Seq<char>, implementor: Seq<char>)
    ensures
        parse_identifier(format_identifier(name, implementor)) == (if name_syntax(name)
            && implementor_syntax(implementor) {
            Some((name, implementor))
        } else {
            None
        }),
{
    let s = format_identifier(name, implementor);
    let n = name.len() as int;
    assert(s[n] == ':');
    if colon_free(name) {
        assert(s.take(n) =~= name);
        assert(s.skip(n + 1) =~= implementor);
        lemma_parts_at(s, n);
    } else {
        let j = choose|j: int| 0 <= j < name.len() && name[j] == ':';
        assert(s[j] == ':');
        lemma_first_colon_exists(s, j);
        let k = choose|k: int| 0 <= k <= j && is_first_colon(s, k);
        lemma_parts_at(s, k);
        let rest = s.skip(k + 1);
        assert(rest[n - k - 1] == ':');
        assert(!is_implementor_char(rest[n - k - 1]));
        assert(!is_name_char(name[j]));
    }
}

/// Checks whether `name` is a valid RPC name.
pub fn is_valid_name(name: &str) -> (res: bool)
    ensures
        res == name_syntax(name@),
{
    match Pattern::compile(String::from_str(NAME_PATTERN)) {
        Ok(pattern) => pattern.is_match(name),
        Err(_) => false,
    }
}

/// Checks whether `name` is a valid implementor.
pub fn is_valid_implementor(name: &str) -> (res: bool)
    ensures
        res == implementor_syntax(name@),
{
    match Pattern::compile(String::from_str(IMPLEMENTOR_PATTERN)) {
        Ok(pattern) => pattern.is_match(name),
        Err(_) => false,
    }
}

/// The position of the first colon in `s`, if it holds one.
fn first_colon(s: &str) -> (res: Option<usize>)
    ensures
        match res {
            Some(k) => is_first_colon(s@, k as int),
            None => colon_free(s@),
        },
{
    let len = s.unicode_len();
    let mut k: usize = 0;
    while k < len
        invariant
            k <= len,
            len == s@.len(),
            colon_free(s@.take(k as int)),
        decreases len - k,
    {
        if s.get_char(k) == ':' {
            return Some(k);
        }
        assert(s@.take(k + 1) =~= s@.take(k as int).push(s@[k as int]));
        k = k + 1;
    }
    assert(s@.take(k as int) =~= s@);
    None
}

/// An RPC identifier: a valid name and a valid implementor.
pub struct RpcId {
    name: String,
    implementor: String,
}

impl View for RpcId {
    type V = (Seq<char>, Seq<char>);

    /// The name and the implementor.
    closed spec fn view(&self) -> (Seq<char>, Seq<char>) {
        (self.name@, self.implementor@)
    }
}

impl RpcId {
    /// Every identifier holds a valid name and a valid implementor.
    #[verifier::type_invariant]
    spec fn well_formed(self) -> bool {
        &&& name_syntax(self.name@)
        &&& implementor_syntax(self.implementor@)
    }

    /// Parses `identifier`, of the form `name:implementor`, split at its first colon.
    pub fn new(identifier: &str) -> (res: Result<RpcId, Error>)
        ensures
            match res {
                Ok(id) => parse_identifier(identifier@) == Some(id@),
                Err(e) => e == Error::InvalidRpcIdentifier && parse_identifier(identifier@) is None,
            },
    {
        let k = match first_colon(identifier) {
            Some(k) => k,
            None => {
                return Err(Error::InvalidRpcIdentifier);
            },
        };
        proof {
            lemma_parts_at(identifier@, k as int);
        }
        let len = identifier.unicode_len();
        let name = identifier.substring_char(0, k);
        let implementor = identifier.substring_char(k + 1, len);
        assert(name@ =~= identifier@.take(k as int));
        assert(implementor@ =~= identifier@.skip(k + 1));
        if !is_valid_name(name) || !is_valid_implementor(implementor) {
            return Err(Error::InvalidRpcIdentifier);
        }
        let id = RpcId { name: String::from_str(name), implementor: String::from_str(implementor) };
        Ok(id)
    }

    /// The name of this identifier.
    pub fn name(&self) -> (res: &str)
        ensures
            res@ == self@.0,
            name_syntax(res@),
            colon_free(res@),
    {
        proof {
            use_type_invariant(self);
            lemma_name_colon_free(self.name@);
        }
        self.name.as_str()
    }

    /// The implementor of this identifier.
    pub fn implementor(&self) -> (res: &str)
        ensures
            res@ == self@.1,
            implementor_syntax(res@),
            forall|j: int| 0 <= j < res@.len() ==> res@[j] != ':' && res@[j] != '.',
    {
        proof {
            use_type_invariant(self);
            lemma_implementor_has_no_colon_or_dot(self.implementor@);
        }
        self.implementor.as_str()
    }
}

} // verus!
