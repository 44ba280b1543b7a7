use vstd::prelude::*;

verus! {

/// One asset's quote as fetched: its ticker symbol, its full name when the
/// ticker gave one, and its USD price in cents.
pub struct PriceRecord {
    pub symbol: String,
    pub name: Option<String>,
    pub cents: i64,
}

impl PriceRecord {
    pub fn new(symbol: String, name: Option<String>, cents: i64) -> (r: PriceRecord)
        ensures
            r.symbol == symbol,
            r.name == name,
            r.cents == cents,
    {
        PriceRecord { symbol, name, cents }
    }
}

/// The USD text of an amount of cents, as rusty_money writes it.
pub uninterp spec fn usd_text(cents: int) -> Seq<char>;

/// Relies on rusty_money's `Money::from_minor` with `iso::USD` and on its
/// `Display`: the text is a function of the amount alone.
#[verifier::external_body]
fn usd_amount(cents: i64) -> (r: String)
    ensures
        r@ == usd_text(cents as int),
{
    rusty_money::Money::from_minor(cents, rusty_money::iso::USD).to_string()
}

/// The line announcing `symbol` at the already formatted `amount`.
pub open spec fn line_text(symbol: Seq<char>, amount: Seq<char>) -> Seq<char> {
    "💰 "@ + symbol + " Price: "@ + amount + "\n"@
}

pub open spec fn record_line(record: PriceRecord) -> Seq<char> {
    line_text(record.symbol@, usd_text(record.cents as int))
}

/// The message for a sequence of records: their lines, in order.
pub open spec fn message_text(records: Seq<PriceRecord>) -> Seq<char>
    decreases records.len(),
{
    if records.len() == 0 {
        Seq::empty()
    } else {
        message_text(records.drop_last()) + record_line(records.last())
    }
}

/// Writes the line for `symbol` once its amount has been formatted.
pub fn price_line(symbol: &str, amount: &str) -> (r: String)
    ensures
        r@ == line_text(symbol@, amount@),
{
    let mut r = String::from_str("💰 ");
    r.append(symbol);
    r.append(" Price: ");
    r.append(amount);
    r.append("\n");
    r
}

/// The line for one record: the symbol and the price in USD.
pub fn construct_message(record: &PriceRecord) -> (r: String)
    ensures
        r@ == record_line(*record),
{
    let amount = usd_amount(record.cents);
    price_line(record.symbol.as_str(), amount.as_str())
}

/// Formatting is a function of the record: two records with the same symbol
/// and price give the same line.
pub proof fn construct_message_deterministic(a: PriceRecord, b: PriceRecord)
    requires
        a.symbol@ == b.symbol@,
        a.cents == b.cents,
    ensures
        record_line(a) == record_line(b),
{
}

/// The message for records fetched in two parts is the message of the first
/// part followed by that of the second: every line keeps its place.
pub proof fn message_text_append(a: Seq<PriceRecord>, b: Seq<PriceRecord>)
    ensures
        message_text(a + b) == message_text(a) + message_text(b),
    decreases b.len(),
{
    if b.len() == 0 {
        assert(a + b =~= a);
        assert(message_text(b) =~= Seq::<char>::empty());
        assert(message_text(a) + message_text(b) =~= message_text(a));
    } else {
        message_text_append(a, b.drop_last());
        assert((a + b).drop_last() =~= a + b.drop_last());
        assert((a + b).last() == b.last());
        assert(message_text(a + b) =~= message_text(a) + message_text(b));
    }
}

} // verus!
