//! Identifiers of entities on the ledger, with their text and address forms.

use vstd::prelude::*;
use vstd::string::StringExecFns;
use vstd::std_specs::convert::FromSpecImpl;
use crate::decimal::{
    lemma_decimal_denotes, lemma_parse_decimal, parse_u64, push_decimal, spec_all_digits,
    spec_decimal, spec_is_digit, spec_parse_u64, spec_unsigned_digits,
};
use crate::error::Error;
use crate::hex::{
    lemma_fits_hex, lemma_hex_fixed_denotes, parse_hex, push_hex_fixed, spec_hex_fixed,
    spec_hex_value, spec_parse_hex,
};
use crate::text::chars_of;

verus! {

/// The ID of an entity on the ledger: `shard.realm.num`.
#[derive(Hash, PartialEq, Eq, Clone, Copy, Debug, Structural)]
pub struct EntityId {
    /// A non-negative number identifying the shard containing this entity.
    pub shard: u64,
    /// A non-negative number identifying the realm within the shard containing this entity.
    pub realm: u64,
    /// A non-negative number identifying the entity within the realm containing this entity.
    pub num: u64,
}

/// The ID of an account.
pub type AccountId = EntityId;

/// The ID of a token.
pub type TokenId = EntityId;

/// The ID of a smart contract.
pub type ContractId = EntityId;

/// The least index at or after `from` at which `s` holds `c`, or the length of `s`.
pub open spec fn spec_find(s: Seq<char>, c: char, from: int) -> int
    decreases s.len() - from,
{
    if from < 0 || from >= s.len() {
        s.len() as int
    } else if s[from] == c {
        from
    } else {
        spec_find(s, c, from + 1)
    }
}

/// The canonical text of an identifier.
pub open spec fn spec_format(id: EntityId) -> Seq<char> {
    spec_decimal(id.shard as nat) + seq!['.'] + spec_decimal(id.realm as nat) + seq!['.']
        + spec_decimal(id.num as nat)
}

/// The identifier that a text denotes, if any: one number `num`, which stands for
/// `0.0.num`, or three numbers with a dot between them.
pub open spec fn spec_parse(s: Seq<char>) -> Option<EntityId> {
    let i = spec_find(s, '.', 0);
    if i == s.len() {
        match spec_parse_u64(s) {
            Some(num) => Some(EntityId { shard: 0, realm: 0, num }),
            None => None,
        }
    } else {
        let j = spec_find(s, '.', i + 1);
        if j == s.len() {
            None
        } else {
            match (
                spec_parse_u64(s.subrange(0, i)),
                spec_parse_u64(s.subrange(i + 1, j)),
                spec_parse_u64(s.subrange(j + 1, s.len() as int)),
            ) {
                (Some(shard), Some(realm), Some(num)) => Some(EntityId { shard, realm, num }),
                _ => None,
            }
        }
    }
}

pub proof fn lemma_find_is(s: Seq<char>, c: char, from: int, at: int)
    requires
        0 <= from <= at <= s.len(),
        forall|k: int| from <= k < at ==> s[k] != c,
        at < s.len() ==> s[at] == c,
    ensures
        spec_find(s, c, from) == at,
    decreases at - from,
{
    if from < at {
        lemma_find_is(s, c, from + 1, at);
    }
}

/// Three number texts with dots between them denote the identifier of the three numbers.
pub proof fn lemma_parse_dotted(a: Seq<char>, b: Seq<char>, c: Seq<char>)
    requires
        spec_all_digits(spec_unsigned_digits(a)),
        spec_all_digits(spec_unsigned_digits(b)),
        spec_parse_u64(a) is Some,
        spec_parse_u64(b) is Some,
        spec_parse_u64(c) is Some,
    ensures
        spec_parse(a + seq!['.'] + b + seq!['.'] + c) == Some(
            EntityId {
                shard: spec_parse_u64(a)->0,
                realm: spec_parse_u64(b)->0,
                num: spec_parse_u64(c)->0,
            },
        ),
{
    let s = a + seq!['.'] + b + seq!['.'] + c;
    let i = a.len() as int;
    let j = i + 1 + b.len();
    assert forall|k: int| 0 <= k < i implies s[k] != '.' by {
        lemma_number_text_has_no_dot(a, k);
    }
    lemma_find_is(s, '.', 0, i);
    assert forall|k: int| i + 1 <= k < j implies s[k] != '.' by {
        assert(s[k] == b[k - i - 1]);
        lemma_number_text_has_no_dot(b, k - i - 1);
    }
    lemma_find_is(s, '.', i + 1, j);
    assert(s.subrange(0, i) == a);
    assert(s.subrange(i + 1, j) == b);
    assert(s.subrange(j + 1, s.len() as int) == c);
}

proof fn lemma_number_text_has_no_dot(a: Seq<char>, k: int)
    requires
        spec_all_digits(spec_unsigned_digits(a)),
        0 <= k < a.len(),
    ensures
        a[k] != '.',
{
    if a[0] == '+' {
        if k > 0 {
            assert(spec_is_digit(spec_unsigned_digits(a)[k - 1]));
        }
    } else {
        assert(spec_is_digit(spec_unsigned_digits(a)[k]));
    }
}

/// Reading the canonical text of an identifier gives the identifier back.
pub proof fn lemma_parse_format(id: EntityId)
    ensures
        spec_parse(spec_format(id)) == Some(id),
{
    lemma_decimal_denotes(id.shard as nat);
    lemma_decimal_denotes(id.realm as nat);
    lemma_decimal_denotes(id.num as nat);
    lemma_parse_decimal(id.shard);
    lemma_parse_decimal(id.realm);
    lemma_parse_decimal(id.num);
    let a = spec_decimal(id.shard as nat);
    let b = spec_decimal(id.realm as nat);
    assert(spec_is_digit(a[0]));
    assert(spec_is_digit(b[0]));
    lemma_parse_dotted(a, b, spec_decimal(id.num as nat));
}

/// A single number `num` is read as `0.0.num`.
pub proof fn lemma_parse_shorthand(num: u64)
    ensures
        spec_parse(spec_decimal(num as nat)) == Some(EntityId { shard: 0, realm: 0, num }),
{
    let s = spec_decimal(num as nat);
    lemma_decimal_denotes(num as nat);
    lemma_parse_decimal(num);
    assert(spec_is_digit(s[0]));
    assert forall|k: int| 0 <= k < s.len() implies s[k] != '.' by {
        lemma_number_text_has_no_dot(s, k);
    }
    lemma_find_is(s, '.', 0, s.len() as int);
}

/// The address form of an identifier: twenty bytes written as forty hexadecimal
/// digits, of which the first eight hold the shard, the next sixteen the realm and the
/// last sixteen the number.
pub open spec fn spec_solidity_address(id: EntityId) -> Seq<char> {
    spec_hex_fixed(id.shard as nat, 8) + spec_hex_fixed(id.realm as nat, 16) + spec_hex_fixed(
        id.num as nat,
        16,
    )
}

/// The digits of an address text: the text itself, without a leading `0x`.
pub open spec fn spec_address_digits(s: Seq<char>) -> Seq<char> {
    if s.len() >= 2 && s[0] == '0' && s[1] == 'x' {
        s.subrange(2, s.len() as int)
    } else {
        s
    }
}

/// The identifier that an address text denotes, if it holds forty hexadecimal digits.
pub open spec fn spec_from_solidity_address(s: Seq<char>) -> Option<EntityId> {
    let digits = spec_address_digits(s);
    if digits.len() != 40 {
        None
    } else {
        match (
            spec_parse_hex(digits.subrange(0, 8)),
            spec_parse_hex(digits.subrange(8, 24)),
            spec_parse_hex(digits.subrange(24, 40)),
        ) {
            (Some(shard), Some(realm), Some(num)) => Some(EntityId { shard, realm, num }),
            _ => None,
        }
    }
}

/// An identifier whose shard fits in 32 bits is read back unchanged from its address.
pub proof fn lemma_solidity_address_round_trip(id: EntityId)
    requires
        id.shard <= u32::MAX,
    ensures
        spec_from_solidity_address(spec_solidity_address(id)) == Some(id),
{
    let a = spec_hex_fixed(id.shard as nat, 8);
    let b = spec_hex_fixed(id.realm as nat, 16);
    let c = spec_hex_fixed(id.num as nat, 16);
    let s = spec_solidity_address(id);
    lemma_hex_fixed_denotes(id.shard as nat, 8);
    lemma_hex_fixed_denotes(id.realm as nat, 16);
    lemma_hex_fixed_denotes(id.num as nat, 16);
    lemma_fits_hex(id.shard as nat);
    lemma_fits_hex(id.realm as nat);
    lemma_fits_hex(id.num as nat);
    assert(s[1] == a[1]);
    assert(spec_hex_value(a[1]) < 16);
    assert(spec_address_digits(s) == s);
    assert(s.subrange(0, 8) == a);
    assert(s.subrange(8, 24) == b);
    assert(s.subrange(24, 40) == c);
}

fn find(chars: &Vec<char>, c: char, from: usize) -> (at: usize)
    requires
        from <= chars.len(),
    ensures
        at == spec_find(chars@, c, from as int),
        from <= at <= chars.len(),
{
    let mut at: usize = from;
    while at < chars.len() && chars[at] != c
        invariant
            from <= at <= chars.len(),
            spec_find(chars@, c, from as int) == spec_find(chars@, c, at as int),
        decreases chars.len() - at,
    {
        at = at + 1;
    }
    at
}

impl EntityId {
    /// Reads an identifier from `shard.realm.num`, or from `num` alone.
    pub fn from_str(s: &str) -> (result: Result<EntityId, Error>)
        ensures
            result is Ok <==> spec_parse(s@) is Some,
            result is Ok ==> Some(result->Ok_0) == spec_parse(s@),
            result is Err ==> result->Err_0 == Error::BasicParse,
    {
        let chars = chars_of(s);
        let n = chars.len();
        let i = find(&chars, '.', 0);
        if i == n {
            return match parse_u64(&chars, 0, n) {
                Some(num) => {
                    assert(chars@.subrange(0, n as int) == chars@);
                    Ok(EntityId { shard: 0, realm: 0, num })
                },
                None => {
                    assert(chars@.subrange(0, n as int) == chars@);
                    Err(Error::BasicParse)
                },
            };
        }
        let j = find(&chars, '.', i + 1);
        if j == n {
            return Err(Error::BasicParse);
        }
        let shard = parse_u64(&chars, 0, i);
        let realm = parse_u64(&chars, i + 1, j);
        let num = parse_u64(&chars, j + 1, n);
        match (shard, realm, num) {
            (Some(shard), Some(realm), Some(num)) => Ok(EntityId { shard, realm, num }),
            _ => Err(Error::BasicParse),
        }
    }

    /// Reads an identifier from its address form: forty hexadecimal digits of either
    /// case, with or without `0x` before them.
    pub fn from_solidity_address(address: &str) -> (result: Result<EntityId, Error>)
        ensures
            result is Ok <==> spec_from_solidity_address(address@) is Some,
            result is Ok ==> Some(result->Ok_0) == spec_from_solidity_address(address@),
            result is Err ==> result->Err_0 == Error::BasicParse,
    {
        let chars = chars_of(address);
        let n = chars.len();
        let mut start: usize = 0;
        if n >= 2 && chars[0] == '0' && chars[1] == 'x' {
            start = 2;
        }
        let ghost digits = chars@.subrange(start as int, n as int);
        assert(digits == spec_address_digits(address@));
        if n - start != 40 {
            return Err(Error::BasicParse);
        }
        let shard = parse_hex(&chars, start, start + 8);
        let realm = parse_hex(&chars, start + 8, start + 24);
        let num = parse_hex(&chars, start + 24, start + 40);
        assert(digits.subrange(0, 8) == chars@.subrange(start as int, start + 8));
        assert(digits.subrange(8, 24) == chars@.subrange(start + 8, start + 24));
        assert(digits.subrange(24, 40) == chars@.subrange(start + 24, start + 40));
        match (shard, realm, num) {
            (Some(shard), Some(realm), Some(num)) => Ok(EntityId { shard, realm, num }),
            _ => Err(Error::BasicParse),
        }
    }

    /// Writes the identifier in its address form, as forty lower-case hexadecimal
    /// digits. An identifier whose shard does not fit in 32 bits has no address.
    pub fn to_solidity_address(self) -> (result: Result<String, Error>)
        ensures
            self.shard <= u32::MAX ==> result is Ok && result->Ok_0@ == spec_solidity_address(
                self,
            ),
            self.shard > u32::MAX ==> result == Err::<String, Error>(Error::BasicNum),
    {
        if self.shard > 0xffff_ffff {
            return Err(Error::BasicNum);
        }
        let mut text = String::new();
        push_hex_fixed(&mut text, self.shard, 8);
        push_hex_fixed(&mut text, self.realm, 16);
        push_hex_fixed(&mut text, self.num, 16);
        assert(text@ =~= spec_solidity_address(self));
        Ok(text)
    }

    /// Writes the identifier as `shard.realm.num`.
    pub fn to_string(&self) -> (text: String)
        ensures
            text@ == spec_format(*self),
    {
        let mut text = String::new();
        push_decimal(&mut text, self.shard);
        text.append(".");
        push_decimal(&mut text, self.realm);
        text.append(".");
        push_decimal(&mut text, self.num);
        proof {
            reveal_strlit(".");
            assert("."@ =~= seq!['.']);
            assert(text@ =~= spec_format(*self));
        }
        text
    }
}

impl From<u64> for EntityId {
    fn from(num: u64) -> (id: Self) {
        EntityId { num, shard: 0, realm: 0 }
    }
}

impl FromSpecImpl<u64> for EntityId {
    open spec fn obeys_from_spec() -> bool {
        true
    }

    open spec fn from_spec(num: u64) -> Self {
        EntityId { num, shard: 0, realm: 0 }
    }
}

impl core::str::FromStr for EntityId {
    type Err = Error;

    /// Reads an identifier from `shard.realm.num`, or from `num` alone.
    fn from_str(s: &str) -> (result: Result<Self, Error>)
        ensures
            result is Ok <==> spec_parse(s@) is Some,
            result is Ok ==> Some(result->Ok_0) == spec_parse(s@),
            result is Err ==> result->Err_0 == Error::BasicParse,
    {
        EntityId::from_str(s)
    }
}

} // verus!
