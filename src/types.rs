use vstd::prelude::*;
use crate::error::ConnectorError;
use crate::ticker::{
    base_symbol, contains, contains_exec, dash, has_usd_marker, lemma_strip_absent, occurs_at,
    perp_suffix, slash, strip_exec, usd, usdc, usdt,
};

verus! {

/// A net directional stance on one asset.
#[derive(Clone, Copy, Debug, PartialEq, Eq, Structural)]
pub enum Position {
    Long,
    Short,
    Flat,
}

/// The directional intent of a single order.
#[derive(Clone, Copy, Debug, PartialEq, Eq, Structural)]
pub enum Action {
    Buy,
    Sell,
}

/// Quantities and prices are fixed-point numbers with this many decimals:
/// the integer `150_000_000` stands for `1.5`.
pub const QUANTITY_DECIMALS: u32 = 8;

/// One instruction to be sent to the exchange.
#[derive(Clone, Debug)]
pub struct Order {
    /// Caller-assigned correlation identifier, not interpreted here.
    pub id: String,
    pub action: Action,
    /// The signal's requested quantity, fixed point.
    pub contracts: u64,
    /// Raw asset symbol, possibly with venue suffixes.
    pub ticker: String,
    /// The position desired after this order.
    pub position: Position,
    /// The position believed to hold before this order.
    pub previous_position: Position,
    /// The resting size to submit, fixed point.
    pub position_size: u64,
    /// Limit price, fixed point.
    pub price: u64,
    /// Caller's reduce-only hint; advisory only.
    pub reduce: bool,
}

/// The transition goes from a non-flat position to flat.
pub open spec fn closes(previous: Position, target: Position) -> bool {
    previous != Position::Flat && target == Position::Flat
}

/// The transition goes from flat to a non-flat position.
pub open spec fn opens(previous: Position, target: Position) -> bool {
    previous == Position::Flat && target != Position::Flat
}

/// The transition flips directly between long and short.
pub open spec fn reverses(previous: Position, target: Position) -> bool {
    (previous == Position::Short && target == Position::Long) || (previous == Position::Long
        && target == Position::Short)
}

impl Order {
    pub open spec fn closing(&self) -> bool {
        closes(self.previous_position, self.position)
    }

    pub open spec fn opening(&self) -> bool {
        opens(self.previous_position, self.position)
    }

    pub open spec fn reversing(&self) -> bool {
        reverses(self.previous_position, self.position)
    }

    /// Normalises `ticker` to its base symbol; fails with `InvalidTicker`
    /// when it carries no USD marker.
    pub fn normalise_ticker(&self, ticker: &str) -> (r: Result<String, ConnectorError>)
        ensures
            r is Ok <==> has_usd_marker(ticker@),
            r matches Ok(s) ==> s@ == base_symbol(ticker@),
            r matches Err(e) ==> e == ConnectorError::InvalidTicker,
    {
        proof {
            reveal_strlit("USD");
            reveal_strlit("USDC");
            reveal_strlit("USDT");
            reveal_strlit(".P");
            reveal_strlit("-");
            reveal_strlit("/");
        }
        assert("USD"@ =~= usd());
        assert("USDC"@ =~= usdc());
        assert("USDT"@ =~= usdt());
        assert(".P"@ =~= perp_suffix());
        assert("-"@ =~= dash());
        assert("/"@ =~= slash());
        if !contains_exec(ticker, "USD") {
            return Err(ConnectorError::InvalidTicker);
        }
        let a = strip_exec(ticker, ".P");
        let b = strip_exec(a.as_str(), "USDC");
        let c = strip_exec(b.as_str(), "USDT");
        let d = strip_exec(c.as_str(), "USD");
        let e = strip_exec(d.as_str(), "-");
        let f = strip_exec(e.as_str(), "/");
        Ok(f)
    }

    pub fn is_buy(&self) -> (r: bool)
        ensures
            r == (self.action == Action::Buy),
    {
        self.action == Action::Buy
    }

    pub fn is_reverse_position(&self) -> (r: bool)
        ensures
            r == self.reversing(),
    {
        (self.previous_position == Position::Short && self.position == Position::Long) || (
        self.previous_position == Position::Long && self.position == Position::Short)
    }

    pub fn is_close_position(&self) -> (r: bool)
        ensures
            r == self.closing(),
    {
        self.previous_position != Position::Flat && self.position == Position::Flat
    }

    pub fn is_open_position(&self) -> (r: bool)
        ensures
            r == self.opening(),
    {
        self.previous_position == Position::Flat && self.position != Position::Flat
    }
}

/// An order whose previous position is flat never closes a position.
pub proof fn lemma_flat_never_closes(o: Order)
    requires
        o.previous_position == Position::Flat,
    ensures
        !o.closing(),
{
}

/// Every transition falls in exactly one class: it opens, closes, reverses,
/// or none of these (staying flat, or staying on the same side).
pub proof fn lemma_one_class(previous: Position, target: Position)
    ensures
        opens(previous, target) ==> !closes(previous, target) && !reverses(previous, target),
        closes(previous, target) ==> !opens(previous, target) && !reverses(previous, target),
        reverses(previous, target) ==> !opens(previous, target) && !closes(previous, target)
            && previous != Position::Flat && target != Position::Flat && previous != target,
        !opens(previous, target) && !closes(previous, target) && !reverses(previous, target)
            <==> previous == target,
{
}

/// Normalising the result of a normalisation: once no marker or punctuation
/// is left in the base symbol, stripping it again changes nothing, and, having
/// no USD marker, it is refused as a raw ticker.
pub proof fn lemma_normalise_settled(raw: Seq<char>)
    requires
        has_usd_marker(raw),
        !contains(base_symbol(raw), perp_suffix()),
        !contains(base_symbol(raw), usd()),
        !contains(base_symbol(raw), dash()),
        !contains(base_symbol(raw), slash()),
    ensures
        base_symbol(base_symbol(raw)) == base_symbol(raw),
        !has_usd_marker(base_symbol(raw)),
{
    let s = base_symbol(raw);
    lemma_strip_absent(s, perp_suffix());
    assert(!contains(s, usdc())) by {
        if contains(s, usdc()) {
            let i = choose|i: int| occurs_at(s, usdc(), i);
            assert(s.subrange(i, i + 3) =~= usd());
            assert(occurs_at(s, usd(), i));
        }
    }
    assert(!contains(s, usdt())) by {
        if contains(s, usdt()) {
            let i = choose|i: int| occurs_at(s, usdt(), i);
            assert(s.subrange(i, i + 3) =~= usd());
            assert(occurs_at(s, usd(), i));
        }
    }
    lemma_strip_absent(s, usdc());
    lemma_strip_absent(s, usdt());
    lemma_strip_absent(s, usd());
    lemma_strip_absent(s, dash());
    lemma_strip_absent(s, slash());
}

} // verus!
