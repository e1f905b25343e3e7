//! Balances and the response that carries one.

use vstd::prelude::*;

verus! {

/// 2 to the 64th power.
pub open spec fn limb_base() -> nat {
    18446744073709551616
}

/// The value of four 64-bit limbs, least significant first.
pub open spec fn limbs_value(l: Seq<u64>) -> nat {
    l[0] as nat + limb_base() * (l[1] as nat + limb_base() * (l[2] as nat + limb_base() * (
    l[3] as nat)))
}

/// The decimal digit for a value below 10.
pub open spec fn decimal_char(d: nat) -> char {
    (d + 48) as char
}

/// The decimal notation of a natural number: its digits, most significant
/// first, without leading zeros (zero is written `0`).
pub open spec fn decimal_text(n: nat) -> Seq<char>
    decreases n,
{
    if n < 10 {
        seq![decimal_char(n)]
    } else {
        decimal_text(n / 10).push(decimal_char(n % 10))
    }
}

/// The JSON object that reports a balance: one field, `balance`, whose value
/// is the given text as a JSON string.
pub open spec fn balance_json(balance: Seq<char>) -> Seq<char> {
    seq!['{', '"', 'b', 'a', 'l', 'a', 'n', 'c', 'e', '"', ':', '"'] + balance + seq!['"', '}']
}

/// An unsigned 256-bit amount in the chain's smallest native unit, held as
/// four 64-bit limbs, least significant first.
#[derive(Clone, Copy, Debug, PartialEq, Eq)]
pub struct Balance {
    pub limbs: [u64; 4],
}

/// Relies on the `Display` impl of `alloy_primitives::U256` (ruint's `Uint`),
/// built from little-endian limbs by `from_limbs` (which takes any four limbs
/// at 256 bits): it writes the value in decimal, without leading zeros.
#[verifier::external_body]
fn u256_decimal(limbs: [u64; 4]) -> (r: String)
    ensures
        r@ == decimal_text(limbs_value(limbs@)),
{
    alloy_primitives::U256::from_limbs(limbs).to_string()
}

impl Balance {
    pub open spec fn value(&self) -> nat {
        limbs_value(self.limbs@)
    }

    /// The balance made of four limbs, least significant first.
    pub fn from_limbs(limbs: [u64; 4]) -> (r: Balance)
        ensures
            r.limbs == limbs,
            r.value() == limbs_value(limbs@),
    {
        Balance { limbs }
    }

    /// The balance whose value is `n`.
    pub fn from_u64(n: u64) -> (r: Balance)
        ensures
            r.value() == n as nat,
    {
        Balance { limbs: [n, 0, 0, 0] }
    }

    /// The decimal notation of the balance.
    pub fn to_decimal(&self) -> (r: String)
        ensures
            r@ == decimal_text(self.value()),
    {
        u256_decimal(self.limbs)
    }
}

/// The reply to a successful balance lookup: the balance in decimal.
#[derive(Clone, Debug, PartialEq, Eq)]
pub struct BalanceResponse {
    pub balance: String,
}

impl BalanceResponse {
    /// The response that reports `b`.
    pub fn from_balance(b: &Balance) -> (r: BalanceResponse)
        ensures
            r.balance@ == decimal_text(b.value()),
    {
        BalanceResponse { balance: b.to_decimal() }
    }

    /// The JSON body `{"balance":"<decimal>"}`. A response made by
    /// `from_balance` holds digits only, which need no escaping.
    pub fn to_json(&self) -> (r: String)
        ensures
            r@ == balance_json(self.balance@),
    {
        proof {
            reveal_strlit("{\"balance\":\"");
            reveal_strlit("\"}");
        }
        let mut out = String::from_str("{\"balance\":\"");
        out.append(self.balance.as_str());
        out.append("\"}");
        proof {
            assert(out@ =~= balance_json(self.balance@));
        }
        out
    }
}

} // verus!
