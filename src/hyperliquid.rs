use vstd::prelude::*;
use vstd::string::*;
use crate::error::ExchangeError;
use crate::ticker::same_text;
use crate::types::{Action, Order, Position, QUANTITY_DECIMALS};

verus! {

/// One entry of the venue's asset metadata: a name and the number of
/// decimals that order sizes of that asset may carry.
#[derive(Clone, Debug)]
pub struct AssetMeta {
    pub name: String,
    pub sz_decimals: u32,
}

/// One resting order of the account, as the venue lists it.
#[derive(Clone, Debug)]
pub struct OpenOrder {
    pub coin: String,
    pub oid: u64,
}

/// A request to cancel one resting order.
#[derive(Clone, Debug)]
pub struct CancelRequest {
    pub asset: String,
    pub oid: u64,
}

/// One position of the account, with its signed size as the venue writes it.
#[derive(Clone, Debug)]
pub struct AssetPosition {
    pub coin: String,
    pub szi: String,
}

/// A limit order, good till cancelled, as it goes to the venue.
#[derive(Clone, Debug)]
pub struct VenueOrder {
    pub asset: String,
    pub is_buy: bool,
    /// Fixed point, already rounded down to the asset's precision.
    pub size: u64,
    pub limit_price: u64,
    pub reduce_only: bool,
}

/// The decimals of the first entry named `asset`, if any.
pub open spec fn decimals_of(universe: Seq<AssetMeta>, asset: Seq<char>) -> Option<u32>
    decreases universe.len(),
{
    if universe.len() == 0 {
        None
    } else if universe[0].name@ == asset {
        Some(universe[0].sz_decimals)
    } else {
        decimals_of(universe.subrange(1, universe.len() as int), asset)
    }
}

/// The size precision for `asset`: its listed decimals when the metadata
/// query succeeded and lists it (and the number fits an `i32`), else zero.
pub open spec fn rounding_size(universe: Option<Seq<AssetMeta>>, asset: Seq<char>) -> i32 {
    match universe {
        Some(u) => match decimals_of(u, asset) {
            Some(d) => if d <= i32::MAX {
                d as i32
            } else {
                0
            },
            None => 0,
        },
        None => 0,
    }
}

/// The decimals of the first entry of `universe` named `asset`.
fn decimals_in(universe: &Vec<AssetMeta>, asset: &str) -> (r: Option<u32>)
    ensures
        r == decimals_of(universe@, asset@),
{
    let mut i: usize = 0;
    assert(universe@.subrange(0, universe@.len() as int) =~= universe@);
    while i < universe.len()
        invariant
            i <= universe@.len(),
            decimals_of(universe@, asset@) == decimals_of(
                universe@.subrange(i as int, universe@.len() as int),
                asset@,
            ),
        decreases universe.len() - i,
    {
        let ghost rest = universe@.subrange(i as int, universe@.len() as int);
        assert(rest.subrange(1, rest.len() as int) =~= universe@.subrange(
            i + 1,
            universe@.len() as int,
        ));
        if same_text(universe[i].name.as_str(), asset) {
            assert(rest[0] == universe@[i as int]);
            return Some(universe[i].sz_decimals);
        }
        i = i + 1;
    }
    None
}

/// Size precision of `asset`, from the venue's metadata, or `None` when the
/// metadata query failed; whole units are the fallback.
pub fn asset_contract_rounding_size(universe: &Option<Vec<AssetMeta>>, asset: &str) -> (r: i32)
    ensures
        universe matches Some(u) ==> r == rounding_size(Some(u@), asset@),
        universe is None ==> r == rounding_size(None, asset@),
{
    match universe {
        None => 0,
        Some(u) => match decimals_in(u, asset) {
            Some(d) => if d <= 0x7fff_ffff {
                d as i32
            } else {
                0
            },
            None => 0,
        },
    }
}

/// `10^n`.
pub open spec fn pow10(n: nat) -> nat
    decreases n,
{
    if n == 0 {
        1
    } else {
        10 * pow10((n - 1) as nat)
    }
}

/// The granule that sizes are rounded down to for `decimals` decimals: a
/// precision below zero counts as zero, one above the fixed-point scale as
/// the scale itself.
pub open spec fn granule(decimals: i32) -> nat {
    if decimals <= 0 {
        pow10(QUANTITY_DECIMALS as nat)
    } else if decimals >= QUANTITY_DECIMALS {
        1
    } else {
        pow10((QUANTITY_DECIMALS - decimals) as nat)
    }
}

/// `size` rounded down to a multiple of `granule(decimals)`.
pub open spec fn rounded_down(size: u64, decimals: i32) -> u64 {
    (size - (size as int) % (granule(decimals) as int)) as u64
}

/// Rounds a fixed-point size down to `decimals` decimals.
pub fn round_down_size(size: u64, decimals: i32) -> (r: u64)
    ensures
        r == rounded_down(size, decimals),
        r <= size,
        (r as int) % (granule(decimals) as int) == 0,
        size - r < granule(decimals),
{
    proof {
        reveal_with_fuel(pow10, 9);
    }
    let exp: u32 = if decimals <= 0 {
        QUANTITY_DECIMALS
    } else if decimals >= 8 {
        0
    } else {
        QUANTITY_DECIMALS - decimals as u32
    };
    let g: u64 = match exp {
        0 => 1,
        1 => 10,
        2 => 100,
        3 => 1000,
        4 => 10000,
        5 => 100000,
        6 => 1000000,
        7 => 10000000,
        _ => 100000000,
    };
    assert(g == granule(decimals));
    assert(size % g <= size) by (nonlinear_arith)
        requires
            g > 0,
    ;
    let r = size - size % g;
    proof {
        let q = size / g;
        assert(size == g * q + size % g) by (nonlinear_arith)
            requires
                g > 0,
                q == size / g,
        ;
        assert((g * q) % (g as int) == 0) by (nonlinear_arith)
            requires
                g > 0,
        ;
    }
    r
}

/// Builds the venue order for `order` on `asset`, its resting size rounded
/// down to `decimals`, reduce-only exactly when it closes a position.
pub fn venue_order(order: &Order, asset: &str, decimals: i32) -> (r: VenueOrder)
    ensures
        r.asset@ == asset@,
        r.is_buy == (order.action == Action::Buy),
        r.size == rounded_down(order.position_size, decimals),
        r.limit_price == order.price,
        r.reduce_only == order.closing(),
{
    VenueOrder {
        asset: String::from_str(asset),
        is_buy: order.is_buy(),
        size: round_down_size(order.position_size, decimals),
        limit_price: order.price,
        reduce_only: order.is_close_position(),
    }
}

/// When the precision lookup failed, the size submitted is whole units.
pub proof fn lemma_precision_fallback(order: Order, asset: Seq<char>)
    ensures
        rounding_size(None, asset) == 0,
        rounded_down(order.position_size, rounding_size(None, asset)) as int
            == order.position_size - order.position_size % 100_000_000,
{
    reveal_with_fuel(pow10, 9);
    assert(granule(0) == 100_000_000);
}

/// The ids of the resting orders on `asset`, in listing order.
pub open spec fn oids_on(orders: Seq<OpenOrder>, asset: Seq<char>) -> Seq<u64>
    decreases orders.len(),
{
    if orders.len() == 0 {
        Seq::empty()
    } else {
        let last = orders.last();
        let before = oids_on(orders.drop_last(), asset);
        if last.coin@ == asset {
            before.push(last.oid)
        } else {
            before
        }
    }
}

/// One cancellation for each resting order on `asset`, and none for others.
pub fn cancel_requests(orders: &Vec<OpenOrder>, asset: &str) -> (r: Vec<CancelRequest>)
    ensures
        r@.map_values(|c: CancelRequest| c.oid) == oids_on(orders@, asset@),
        forall|i: int| 0 <= i < r@.len() ==> (#[trigger] r@[i]).asset@ == asset@,
{
    let mut r: Vec<CancelRequest> = Vec::new();
    let mut i: usize = 0;
    while i < orders.len()
        invariant
            i <= orders@.len(),
            r@.map_values(|c: CancelRequest| c.oid) == oids_on(
                orders@.subrange(0, i as int),
                asset@,
            ),
            forall|k: int| 0 <= k < r@.len() ==> (#[trigger] r@[k]).asset@ == asset@,
        decreases orders.len() - i,
    {
        let ghost prefix = orders@.subrange(0, i + 1);
        assert(prefix.drop_last() =~= orders@.subrange(0, i as int));
        if same_text(orders[i].coin.as_str(), asset) {
            r.push(CancelRequest { asset: String::from_str(asset), oid: orders[i].oid });
            assert(r@.map_values(|c: CancelRequest| c.oid) =~= oids_on(prefix, asset@));
        } else {
            assert(r@.map_values(|c: CancelRequest| c.oid) =~= oids_on(prefix, asset@));
        }
        i = i + 1;
    }
    assert(orders@.subrange(0, orders@.len() as int) =~= orders@);
    r
}

pub open spec fn is_digit(c: char) -> bool {
    '0' <= c && c <= '9'
}

/// A signed size is negative when it starts with a minus sign.
pub open spec fn is_negative(s: Seq<char>) -> bool {
    s.len() > 0 && s[0] == '-'
}

/// The size without its sign.
pub open spec fn magnitude(s: Seq<char>) -> Seq<char> {
    if is_negative(s) {
        s.subrange(1, s.len() as int)
    } else {
        s
    }
}

/// Digits with at most one decimal point, and at least one digit.
pub open spec fn is_decimal(m: Seq<char>) -> bool {
    &&& forall|i: int| 0 <= i < m.len() ==> is_digit(#[trigger] m[i]) || m[i] == '.'
    &&& forall|i: int, j: int|
        0 <= i < j < m.len() && #[trigger] m[i] == '.' ==> #[trigger] m[j] != '.'
    &&& exists|i: int| 0 <= i < m.len() && is_digit(#[trigger] m[i])
}

pub open spec fn has_nonzero_digit(m: Seq<char>) -> bool {
    exists|i: int| 0 <= i < m.len() && is_digit(#[trigger] m[i]) && m[i] != '0'
}

/// The position that a signed decimal size stands for: long when positive,
/// short when negative, flat when zero; `None` when it is no decimal.
pub open spec fn size_sign(s: Seq<char>) -> Option<Position> {
    let m = magnitude(s);
    if !is_decimal(m) {
        None
    } else if !has_nonzero_digit(m) {
        Some(Position::Flat)
    } else if is_negative(s) {
        Some(Position::Short)
    } else {
        Some(Position::Long)
    }
}

/// Classifies a signed decimal size such as `"-0.25"`.
pub fn classify_size(s: &str) -> (r: Option<Position>)
    ensures
        r == size_sign(s@),
{
    let n = s.unicode_len();
    let neg = n > 0 && s.get_char(0) == '-';
    let start: usize = if neg {
        1
    } else {
        0
    };
    let ghost m = magnitude(s@);
    assert(m =~= s@.subrange(start as int, n as int));
    let mut i: usize = start;
    let mut dot = false;
    let mut digit = false;
    let mut nonzero = false;
    while i < n
        invariant
            n == s@.len(),
            start <= i <= n,
            m == s@.subrange(start as int, n as int),
            m == magnitude(s@),
            forall|k: int| 0 <= k < i - start ==> is_digit(#[trigger] m[k]) || m[k] == '.',
            dot <==> exists|k: int| 0 <= k < i - start && #[trigger] m[k] == '.',
            forall|k: int, l: int|
                0 <= k < l < i - start && #[trigger] m[k] == '.' ==> #[trigger] m[l] != '.',
            digit <==> exists|k: int| 0 <= k < i - start && is_digit(#[trigger] m[k]),
            nonzero <==> exists|k: int|
                0 <= k < i - start && is_digit(#[trigger] m[k]) && m[k] != '0',
        decreases n - i,
    {
        let c = s.get_char(i);
        let ghost j = i - start;
        assert(m[j] == c);
        if c == '.' {
            if dot {
                let ghost k = choose|k: int| 0 <= k < i - start && #[trigger] m[k] == '.';
                assert(!is_decimal(m)) by {
                    assert(0 <= k < j < m.len() && m[k] == '.' && m[j] == '.');
                }
                return None;
            }
            dot = true;
        } else if '0' <= c && c <= '9' {
            digit = true;
            if c != '0' {
                nonzero = true;
            }
        } else {
            assert(!is_decimal(m)) by {
                assert(!(is_digit(m[j]) || m[j] == '.'));
            }
            return None;
        }
        i = i + 1;
    }
    if !digit {
        return None;
    }
    if !nonzero {
        Some(Position::Flat)
    } else if neg {
        Some(Position::Short)
    } else {
        Some(Position::Long)
    }
}

/// The size text of the first position listed on `asset`, if any.
pub open spec fn size_text_of(positions: Seq<AssetPosition>, asset: Seq<char>) -> Option<
    Seq<char>,
>
    decreases positions.len(),
{
    if positions.len() == 0 {
        None
    } else if positions[0].coin@ == asset {
        Some(positions[0].szi@)
    } else {
        size_text_of(positions.subrange(1, positions.len() as int), asset)
    }
}

/// The account's net position on `asset` from the positions the venue
/// reported: flat when none is listed, else the sign of the first listed
/// size; a size that is no decimal number is a malformed venue response.
pub fn live_position(positions: &Vec<AssetPosition>, asset: &str) -> (r: Result<
    Position,
    ExchangeError,
>)
    ensures
        size_text_of(positions@, asset@) is None ==> r == Ok::<Position, ExchangeError>(
            Position::Flat,
        ),
        size_text_of(positions@, asset@) matches Some(t) ==> match size_sign(t) {
            Some(p) => r == Ok::<Position, ExchangeError>(p),
            None => r is Err,
        },
{
    let mut i: usize = 0;
    assert(positions@.subrange(0, positions@.len() as int) =~= positions@);
    while i < positions.len()
        invariant
            i <= positions@.len(),
            size_text_of(positions@, asset@) == size_text_of(
                positions@.subrange(i as int, positions@.len() as int),
                asset@,
            ),
        decreases positions.len() - i,
    {
        let ghost rest = positions@.subrange(i as int, positions@.len() as int);
        assert(rest.subrange(1, rest.len() as int) =~= positions@.subrange(
            i + 1,
            positions@.len() as int,
        ));
        if same_text(positions[i].coin.as_str(), asset) {
            assert(rest[0] == positions@[i as int]);
            return match classify_size(positions[i].szi.as_str()) {
                Some(p) => Ok(p),
                None => Err(ExchangeError { message: String::from_str("malformed position size") }),
            };
        }
        i = i + 1;
    }
    Ok(Position::Flat)
}

} // verus!
