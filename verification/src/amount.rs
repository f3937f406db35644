//! Amount of an asset given on the command line, as `<asset>:<amount>` or
//! `<amount> <asset>`.
use vstd::prelude::*;
use crate::text::{
    dec_chars, decimal_string, lemma_dec_chars, lemma_parse_dec, lemma_split_joined, parse_u64,
    parse_u64_spec, sole_index, split_once_exact,
};

verus! {

/// Errors of parsing an [`AmountOfAsset`].
#[derive(Clone, Copy, PartialEq, Eq, Structural, Debug, Hash, PartialOrd, Ord)]
pub enum AmountOfAssetParseError {
    /// The provided value can't be parsed as a pair of asset name/ticker and
    /// asset amount; use <asset>:<amount> or '<amount> <asset>' form and do
    /// not forget about quotation marks in the second case
    NeedsValuePair,

    /// The provided amount can't be interpreted; please use unsigned integer
    InvalidAmount,
}

impl AmountOfAssetParseError {
    /// The message that describes the error.
    pub fn to_display_string(&self) -> (r: String)
        ensures
            r@ == self.spec_message(),
    {
        match self {
            AmountOfAssetParseError::NeedsValuePair => {
                proof { reveal_strlit("The provided value can't be parsed as a pair of asset name/ticker and asset amount; use <asset>:<amount> or '<amount> <asset>' form and do not forget about quotation marks in the second case"); }
                String::from_str("The provided value can't be parsed as a pair of asset name/ticker and asset amount; use <asset>:<amount> or '<amount> <asset>' form and do not forget about quotation marks in the second case")
            }
            AmountOfAssetParseError::InvalidAmount => {
                proof { reveal_strlit("The provided amount can't be interpreted; please use unsigned integer"); }
                String::from_str("The provided amount can't be interpreted; please use unsigned integer")
            }
        }
    }

    pub open spec fn spec_message(&self) -> Seq<char> {
        match self {
            AmountOfAssetParseError::NeedsValuePair => "The provided value can't be parsed as a pair of asset name/ticker and asset amount; use <asset>:<amount> or '<amount> <asset>' form and do not forget about quotation marks in the second case"@,
            AmountOfAssetParseError::InvalidAmount => "The provided amount can't be interpreted; please use unsigned integer"@,
        }
    }
}

/// An amount of some asset, in atomic units.
#[derive(Clone, PartialEq, Eq, Debug, Hash, PartialOrd, Ord)]
pub struct AmountOfAsset {
    /// Asset ticker
    asset: String,
    /// Amount of the asset in atomic units
    amount: u64,
}

impl View for AmountOfAsset {
    type V = (Seq<char>, u64);

    closed spec fn view(&self) -> (Seq<char>, u64) {
        (self.asset@, self.amount)
    }
}

/// What parsing a string as an amount of asset gives: the asset text and the
/// amount, or the error.
pub open spec fn amount_of_asset_spec(s: Seq<char>) -> Result<(Seq<char>, u64), AmountOfAssetParseError> {
    if s.contains(':') {
        match split_once_exact(s, ':') {
            None => Err(AmountOfAssetParseError::NeedsValuePair),
            Some((asset, amount)) => match parse_u64_spec(amount) {
                Some(v) => Ok((asset, v)),
                None => Err(AmountOfAssetParseError::InvalidAmount),
            },
        }
    } else if s.contains(' ') {
        match split_once_exact(s, ' ') {
            None => Err(AmountOfAssetParseError::NeedsValuePair),
            Some((amount, asset)) => match parse_u64_spec(amount) {
                Some(v) => Ok((asset, v)),
                None => Err(AmountOfAssetParseError::InvalidAmount),
            },
        }
    } else {
        Err(AmountOfAssetParseError::NeedsValuePair)
    }
}

/// The default text form, `<amount> <asset>`.
pub open spec fn amount_display_spec(v: (Seq<char>, u64)) -> Seq<char> {
    dec_chars(v.1 as nat) + seq![' '] + v.0
}

/// The alternate text form, `<asset>:<amount>`.
pub open spec fn amount_alt_display_spec(v: (Seq<char>, u64)) -> Seq<char> {
    v.0 + seq![':'] + dec_chars(v.1 as nat)
}

/// Finds the first occurrence of `c` in `s` and tells whether there is
/// another one after it.
fn find_separator(s: &str, c: char) -> (r: Option<(usize, bool)>)
    ensures
        r is None <==> !s@.contains(c),
        r matches Some((i, more)) ==> {
            &&& 0 <= i < s@.len()
            &&& s@[i as int] == c
            &&& (forall|j: int| 0 <= j < i ==> s@[j] != c)
            &&& (more <==> exists|j: int| i < j < s@.len() && s@[j] == c)
        },
{
    let len = s.unicode_len();
    let mut i: usize = 0;
    let mut first: Option<usize> = None;
    while i < len
        invariant
            len == s@.len(),
            i <= len,
            first is None ==> forall|j: int| 0 <= j < i ==> s@[j] != c,
            first matches Some(f) ==> f < i && s@[f as int] == c && (forall|j: int| 0 <= j < f ==> s@[j] != c)
                && (forall|j: int| f < j < i ==> s@[j] != c),
        decreases len - i,
    {
        if s.get_char(i) == c {
            match first {
                None => {
                    first = Some(i);
                }
                Some(f) => {
                    assert(f < i && s@[i as int] == c);
                    return Some((f, true));
                }
            }
        }
        i = i + 1;
    }
    match first {
        None => None,
        Some(f) => Some((f, false)),
    }
}

impl AmountOfAsset {
    /// Asset ticker.
    pub fn asset(&self) -> (r: &str)
        ensures
            r@ == self@.0,
    {
        self.asset.as_str()
    }

    /// Amount of the asset in atomic units.
    pub fn amount(&self) -> (r: u64)
        ensures
            r == self@.1,
    {
        self.amount
    }

    /// Parses `<asset>:<amount>` or `<amount> <asset>`; a string with a colon
    /// is always read in the first form.
    pub fn from_str(s: &str) -> (r: Result<AmountOfAsset, AmountOfAssetParseError>)
        ensures
            match r {
                Ok(a) => amount_of_asset_spec(s@) == Ok::<(Seq<char>, u64), AmountOfAssetParseError>(a@),
                Err(e) => amount_of_asset_spec(s@) == Err::<(Seq<char>, u64), AmountOfAssetParseError>(e),
            },
    {
        let len = s.unicode_len();
        let colon = find_separator(s, ':');
        let (first, second, asset_first) = match colon {
            Some((i, more)) => {
                if more {
                    proof {
                        assert(!exists|k: int| sole_index(s@, ':', k)) by {
                            if exists|k: int| sole_index(s@, ':', k) {
                                let k = choose|k: int| sole_index(s@, ':', k);
                                let j = choose|j: int| i < j < s@.len() && s@[j] == ':';
                                assert(k == i as int);
                            }
                        }
                    }
                    return Err(AmountOfAssetParseError::NeedsValuePair);
                }
                proof { Self::lemma_sole(s@, ':', i as int); }
                (s.substring_char(0, i), s.substring_char(i + 1, len), true)
            }
            None => match find_separator(s, ' ') {
                Some((i, more)) => {
                    if more {
                        proof {
                            assert(!exists|k: int| sole_index(s@, ' ', k)) by {
                                if exists|k: int| sole_index(s@, ' ', k) {
                                    let k = choose|k: int| sole_index(s@, ' ', k);
                                    let j = choose|j: int| i < j < s@.len() && s@[j] == ' ';
                                    assert(k == i as int);
                                }
                            }
                        }
                        return Err(AmountOfAssetParseError::NeedsValuePair);
                    }
                    proof { Self::lemma_sole(s@, ' ', i as int); }
                    (s.substring_char(0, i), s.substring_char(i + 1, len), false)
                }
                None => {
                    return Err(AmountOfAssetParseError::NeedsValuePair);
                }
            },
        };
        let (asset, amount) = if asset_first { (first, second) } else { (second, first) };
        match parse_u64(amount) {
            None => Err(AmountOfAssetParseError::InvalidAmount),
            Some(v) => Ok(AmountOfAsset { asset: asset.to_owned(), amount: v }),
        }
    }

    proof fn lemma_sole(s: Seq<char>, c: char, i: int)
        requires
            0 <= i < s.len(),
            s[i] == c,
            forall|j: int| 0 <= j < i ==> s[j] != c,
            !(exists|j: int| i < j < s.len() && s[j] == c),
        ensures
            split_once_exact(s, c) == Some((s.subrange(0, i), s.subrange(i + 1, s.len() as int))),
    {
        assert(sole_index(s, c, i));
        let k = choose|k: int| sole_index(s, c, k);
        assert(k == i);
        assert(s.take(i) =~= s.subrange(0, i));
        assert(s.skip(i + 1) =~= s.subrange(i + 1, s.len() as int));
    }

    /// The default text form, `<amount> <asset>`.
    pub fn to_display_string(&self) -> (r: String)
        ensures
            r@ == amount_display_spec(self@),
    {
        let mut out = decimal_string(self.amount);
        proof { reveal_strlit(" "); }
        out.append(" ");
        out.append(self.asset.as_str());
        out
    }

    /// The alternate text form, `<asset>:<amount>`.
    pub fn to_alt_display_string(&self) -> (r: String)
        ensures
            r@ == amount_alt_display_spec(self@),
    {
        let mut out = self.asset.clone();
        proof { reveal_strlit(":"); }
        out.append(":");
        let n = decimal_string(self.amount);
        out.append(n.as_str());
        out
    }
}

/// Reading back the default text form gives the same amount of asset, for
/// every asset ticker without colons and spaces.
pub proof fn law_amount_display_roundtrip(v: (Seq<char>, u64))
    requires
        !v.0.contains(':'),
        !v.0.contains(' '),
    ensures
        amount_of_asset_spec(amount_display_spec(v)) == Ok::<(Seq<char>, u64), AmountOfAssetParseError>(v),
{
    let d = dec_chars(v.1 as nat);
    lemma_dec_chars(v.1 as nat);
    lemma_parse_dec(v.1);
    let s = amount_display_spec(v);
    assert(s[d.len() as int] == ' ');
    assert(!s.contains(':')) by {
        if s.contains(':') {
            let j = choose|j: int| 0 <= j < s.len() && s[j] == ':';
            if j < d.len() {
                assert(d[j] == ':');
            } else if j > d.len() {
                assert(v.0[j - d.len() - 1] == ':');
            }
        }
    }
    lemma_split_joined(d, v.0, ' ');
}

/// Reading back the alternate text form gives the same amount of asset, for
/// every asset ticker without colons.
pub proof fn law_amount_alt_display_roundtrip(v: (Seq<char>, u64))
    requires
        !v.0.contains(':'),
    ensures
        amount_of_asset_spec(amount_alt_display_spec(v)) == Ok::<(Seq<char>, u64), AmountOfAssetParseError>(v),
{
    let d = dec_chars(v.1 as nat);
    lemma_dec_chars(v.1 as nat);
    lemma_parse_dec(v.1);
    let s = amount_alt_display_spec(v);
    assert(s[v.0.len() as int] == ':');
    lemma_split_joined(v.0, d, ':');
}

} // verus!
