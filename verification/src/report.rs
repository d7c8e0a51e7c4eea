use vstd::prelude::*;

use crate::config::Config;

verus! {

/// The character of the decimal digit `d`.
pub open spec fn digit_char(d: nat) -> char {
    (d + 48) as char
}

/// The decimal numeral of `n`: its digits, most significant first, with no
/// leading zero.
pub open spec fn decimal(n: nat) -> Seq<char>
    decreases n,
{
    if n < 10 {
        seq![digit_char(n)]
    } else {
        decimal(n / 10) + seq![digit_char(n % 10)]
    }
}

/// The number that a string of decimal digits denotes.
pub open spec fn numeral_value(s: Seq<char>) -> int
    decreases s.len(),
{
    if s.len() == 0 {
        0
    } else {
        numeral_value(s.drop_last()) * 10 + (s.last() as int - 48)
    }
}

/// Holds when every character of `s` is a decimal digit.
pub open spec fn all_digits(s: Seq<char>) -> bool {
    forall|i: int| 0 <= i < s.len() ==> '0' <= #[trigger] s[i] <= '9'
}

/// A number's decimal numeral is made of digits, starts with a nonzero digit
/// unless the number is zero, and denotes the number back.
pub proof fn lemma_decimal_round_trip(n: nat)
    ensures
        all_digits(decimal(n)),
        decimal(n).len() >= 1,
        n > 0 ==> decimal(n)[0] != '0',
        numeral_value(decimal(n)) == n,
    decreases n,
{
    if n < 10 {
        assert(decimal(n) =~= seq![digit_char(n)]);
        assert(seq![digit_char(n)].drop_last() =~= Seq::<char>::empty());
        assert(digit_char(n) as int == n + 48);
        assert(numeral_value(Seq::<char>::empty()) == 0);
    } else {
        lemma_decimal_round_trip(n / 10);
        let s = decimal(n);
        assert(s =~= decimal(n / 10) + seq![digit_char(n % 10)]);
        assert(s.drop_last() =~= decimal(n / 10));
        assert(s[0] == decimal(n / 10)[0]);
        assert(s.last() as int == n % 10 + 48);
        assert(numeral_value(s) == numeral_value(decimal(n / 10)) * 10 + n % 10);
        assert forall|i: int| 0 <= i < s.len() implies '0' <= #[trigger] s[i] <= '9' by {
            if i < s.len() - 1 {
                assert(s[i] == decimal(n / 10)[i]);
            }
        }
    }
}

/// The character string of the decimal digit `d`.
fn digit_str(d: u64) -> (s: &'static str)
    requires
        d < 10,
    ensures
        s@ == seq![digit_char(d as nat)],
{
    proof {
        reveal_strlit("0");
        reveal_strlit("1");
        reveal_strlit("2");
        reveal_strlit("3");
        reveal_strlit("4");
        reveal_strlit("5");
        reveal_strlit("6");
        reveal_strlit("7");
        reveal_strlit("8");
        reveal_strlit("9");
    }
    if d == 0 {
        "0"
    } else if d == 1 {
        "1"
    } else if d == 2 {
        "2"
    } else if d == 3 {
        "3"
    } else if d == 4 {
        "4"
    } else if d == 5 {
        "5"
    } else if d == 6 {
        "6"
    } else if d == 7 {
        "7"
    } else if d == 8 {
        "8"
    } else {
        "9"
    }
}

/// Appends the decimal numeral of `n` to `out`.
pub fn push_decimal(out: &mut String, n: u64)
    ensures
        final(out)@ == old(out)@ + decimal(n as nat),
    decreases n,
{
    if n >= 10 {
        push_decimal(out, n / 10);
    }
    let d = digit_str(n % 10);
    out.append(d);
    proof {
        if n < 10 {
            assert(decimal(n as nat) =~= seq![digit_char(n as nat)]);
        }
    }
}

} // verus!

verus! {

/// What one output batch contributes to the benchmark report: one table row.
#[derive(Debug, Clone, Copy, PartialEq, Eq, Structural)]
pub struct EpochReport {
    /// The epoch of the batch.
    pub epoch: u64,
    /// The number of validators: the validator peers and this node.
    pub validator_count: usize,
    /// The number of validators whose contributions the batch holds.
    pub contributor_count: usize,
    /// The number of transactions in each contribution.
    pub batch_count: usize,
    /// The number of bytes of each transaction.
    pub tx_size: usize,
    /// The number of transactions in the batch.
    pub tx_count: usize,
}

impl EpochReport {
    /// Builds the report row of a batch output in `epoch`, with
    /// `validator_peers` validators among the peers and `contributor_count`
    /// contributions in the batch, under the configuration `cfg`.
    pub fn new(epoch: u64, validator_peers: usize, contributor_count: usize, cfg: &Config) -> (r:
        EpochReport)
        requires
            validator_peers < usize::MAX,
            contributor_count * cfg.txn_gen_count <= usize::MAX,
        ensures
            r.epoch == epoch,
            r.validator_count == validator_peers + 1,
            r.contributor_count == contributor_count,
            r.batch_count == cfg.txn_gen_count,
            r.tx_size == cfg.txn_gen_bytes,
            r.tx_count == contributor_count * cfg.txn_gen_count,
    {
        EpochReport {
            epoch,
            validator_count: validator_peers + 1,
            contributor_count,
            batch_count: cfg.txn_gen_count,
            tx_size: cfg.txn_gen_bytes,
            tx_count: contributor_count * cfg.txn_gen_count,
        }
    }
}

/// Whether the report file still needs its table header: it does when it does
/// not exist (`None`) or is empty.
pub open spec fn spec_should_write_headers(existing_len: Option<u64>) -> bool {
    match existing_len {
        None => true,
        Some(len) => len == 0,
    }
}

/// Decides whether the table header goes before the next row, given the
/// length of the report file, or `None` where it could not be read.
pub fn should_write_headers(existing_len: Option<u64>) -> (b: bool)
    ensures
        b == spec_should_write_headers(existing_len),
        b <==> (existing_len is None || existing_len == Some(0u64)),
{
    match existing_len {
        None => true,
        Some(len) => len == 0,
    }
}

/// The table header of the report: a line of the column names, then the
/// line that centers each column.
pub open spec fn spec_header() -> Seq<char> {
    "\n | "@ + "epoch_id"@ + " | "@ + "validator num"@ + " | "@ + "contributor num"@ + " | "@
        + "batch num"@ + " | "@ + "tx size(Bytes)/tx"@ + " | "@ + "block num"@ + " | "@
        + "epoch_time(latency)"@ + " |\n"@ + "|"@ + ":-------:|"@ + ":-------:|"@ + ":-------:|"@
        + ":-------:|"@ + ":-------:|"@ + ":-------:|"@ + ":-------:|"@ + "\n"@
}

/// The table header of the report file.
pub fn header_text() -> (s: String)
    ensures
        s@ == spec_header(),
        s@ == "\n "@ + table_row(
            seq![
                "epoch_id"@,
                "validator num"@,
                "contributor num"@,
                "batch num"@,
                "tx size(Bytes)/tx"@,
                "block num"@,
                "epoch_time(latency)"@,
            ],
        ) + "|"@ + column_rules(7) + "\n"@,
{
    proof {
        lemma_row_follows_header(
            EpochReport {
                epoch: 0,
                validator_count: 0,
                contributor_count: 0,
                batch_count: 0,
                tx_size: 0,
                tx_count: 0,
            },
            Seq::empty(),
        );
    }
    let mut s = String::new();
    s.append("\n | ");
    s.append("epoch_id");
    s.append(" | ");
    s.append("validator num");
    s.append(" | ");
    s.append("contributor num");
    s.append(" | ");
    s.append("batch num");
    s.append(" | ");
    s.append("tx size(Bytes)/tx");
    s.append(" | ");
    s.append("block num");
    s.append(" | ");
    s.append("epoch_time(latency)");
    s.append(" |\n");
    s.append("|");
    let mut i: usize = 0;
    while i < 7
        invariant
            i <= 7,
            s@ == "\n | "@ + "epoch_id"@ + " | "@ + "validator num"@ + " | "@ + "contributor num"@
                + " | "@ + "batch num"@ + " | "@ + "tx size(Bytes)/tx"@ + " | "@ + "block num"@
                + " | "@ + "epoch_time(latency)"@ + " |\n"@ + "|"@ + column_rules(i as nat),
        decreases 7 - i,
    {
        s.append(":-------:|");
        i = i + 1;
    }
    s.append("\n");
    proof {
        assert(column_rules(7) =~= ":-------:|"@ + ":-------:|"@ + ":-------:|"@ + ":-------:|"@
            + ":-------:|"@ + ":-------:|"@ + ":-------:|"@) by {
            reveal_with_fuel(column_rules, 8);
        }
    }
    s
}

/// `k` column rules side by side.
pub open spec fn column_rules(k: nat) -> Seq<char>
    decreases k,
{
    if k == 0 {
        Seq::empty()
    } else {
        column_rules((k - 1) as nat) + ":-------:|"@
    }
}

/// The report row of `r`, where `epoch_time` is the rendering of the time
/// the epoch took, in seconds.
pub open spec fn spec_row(r: EpochReport, epoch_time: Seq<char>) -> Seq<char> {
    "| "@ + decimal(r.epoch as nat) + " | "@ + decimal(r.validator_count as nat) + " | "@ + decimal(
        r.contributor_count as nat,
    ) + " | "@ + decimal(r.batch_count as nat) + " | "@ + decimal(r.tx_size as nat) + " | "@
        + decimal(r.tx_count as nat) + " | "@ + epoch_time + " |\n"@
}

/// Renders the report row of `r`; `epoch_time` renders the time the epoch
/// took, in seconds.
pub fn row_text(r: &EpochReport, epoch_time: &str) -> (s: String)
    ensures
        s@ == spec_row(*r, epoch_time@),
        s@ == table_row(
            seq![
                decimal(r.epoch as nat),
                decimal(r.validator_count as nat),
                decimal(r.contributor_count as nat),
                decimal(r.batch_count as nat),
                decimal(r.tx_size as nat),
                decimal(r.tx_count as nat),
                epoch_time@,
            ],
        ),
{
    proof {
        lemma_row_follows_header(*r, epoch_time@);
    }
    let mut s = String::new();
    s.append("| ");
    push_decimal(&mut s, r.epoch);
    s.append(" | ");
    push_decimal(&mut s, r.validator_count as u64);
    s.append(" | ");
    push_decimal(&mut s, r.contributor_count as u64);
    s.append(" | ");
    push_decimal(&mut s, r.batch_count as u64);
    s.append(" | ");
    push_decimal(&mut s, r.tx_size as u64);
    s.append(" | ");
    push_decimal(&mut s, r.tx_count as u64);
    s.append(" | ");
    s.append(epoch_time);
    s.append(" |\n");
    s
}

/// The name of a node's report file: its id, then `.md`.
pub fn report_file_name(nid: &str) -> (name: String)
    ensures
        name@ == nid@ + ".md"@,
{
    let mut name = String::from_str(nid);
    name.append(".md");
    name
}

} // verus!

verus! {

/// The cells of a markdown table line, each after a bar and a space and
/// before a space, closed by a bar.
pub open spec fn bars(cells: Seq<Seq<char>>) -> Seq<char>
    decreases cells.len(),
{
    if cells.len() == 0 {
        "|"@
    } else {
        bars(cells.drop_last()) + " "@ + cells.last() + " |"@
    }
}

/// A markdown table line of `cells`, ended by a newline.
pub open spec fn table_row(cells: Seq<Seq<char>>) -> Seq<char> {
    bars(cells) + "\n"@
}

/// The report row of a batch is the table line whose cells are, in the order
/// of the header's columns: the epoch, the number of validators, the number
/// of contributors, the transactions per contribution, the bytes per
/// transaction, the transactions in the batch and the epoch time; each
/// count is written as its decimal numeral, which reads back as the count.
pub proof fn lemma_row_follows_header(r: EpochReport, epoch_time: Seq<char>)
    ensures
        spec_row(r, epoch_time) == table_row(
            seq![
                decimal(r.epoch as nat),
                decimal(r.validator_count as nat),
                decimal(r.contributor_count as nat),
                decimal(r.batch_count as nat),
                decimal(r.tx_size as nat),
                decimal(r.tx_count as nat),
                epoch_time,
            ],
        ),
        spec_header() == "\n "@ + table_row(
            seq![
                "epoch_id"@,
                "validator num"@,
                "contributor num"@,
                "batch num"@,
                "tx size(Bytes)/tx"@,
                "block num"@,
                "epoch_time(latency)"@,
            ],
        ) + "|"@ + column_rules(7) + "\n"@,
        numeral_value(decimal(r.epoch as nat)) == r.epoch,
        numeral_value(decimal(r.validator_count as nat)) == r.validator_count,
        numeral_value(decimal(r.contributor_count as nat)) == r.contributor_count,
        numeral_value(decimal(r.batch_count as nat)) == r.batch_count,
        numeral_value(decimal(r.tx_size as nat)) == r.tx_size,
        numeral_value(decimal(r.tx_count as nat)) == r.tx_count,
{
    lemma_header_columns();
    lemma_decimal_round_trip(r.epoch as nat);
    lemma_decimal_round_trip(r.validator_count as nat);
    lemma_decimal_round_trip(r.contributor_count as nat);
    lemma_decimal_round_trip(r.batch_count as nat);
    lemma_decimal_round_trip(r.tx_size as nat);
    lemma_decimal_round_trip(r.tx_count as nat);
    lemma_table_line_of_seven(
        decimal(r.epoch as nat),
        decimal(r.validator_count as nat),
        decimal(r.contributor_count as nat),
        decimal(r.batch_count as nat),
        decimal(r.tx_size as nat),
        decimal(r.tx_count as nat),
        epoch_time,
    );
    assert(spec_row(r, epoch_time) =~= table_row(
        seq![
            decimal(r.epoch as nat),
            decimal(r.validator_count as nat),
            decimal(r.contributor_count as nat),
            decimal(r.batch_count as nat),
            decimal(r.tx_size as nat),
            decimal(r.tx_count as nat),
            epoch_time,
        ],
    ));
}

/// The header line names the columns, in order, as a table line.
proof fn lemma_header_columns()
    ensures
        spec_header() == "\n "@ + table_row(
            seq![
                "epoch_id"@,
                "validator num"@,
                "contributor num"@,
                "batch num"@,
                "tx size(Bytes)/tx"@,
                "block num"@,
                "epoch_time(latency)"@,
            ],
        ) + "|"@ + column_rules(7) + "\n"@,
{
    lemma_table_line_of_seven(
        "epoch_id"@,
        "validator num"@,
        "contributor num"@,
        "batch num"@,
        "tx size(Bytes)/tx"@,
        "block num"@,
        "epoch_time(latency)"@,
    );
    assert(column_rules(7) =~= ":-------:|"@ + ":-------:|"@ + ":-------:|"@ + ":-------:|"@
        + ":-------:|"@ + ":-------:|"@ + ":-------:|"@) by {
        reveal_with_fuel(column_rules, 8);
    }
    reveal_strlit("\n | ");
    reveal_strlit("\n ");
    reveal_strlit("| ");
    assert(spec_header() =~= "\n "@ + table_row(
        seq![
            "epoch_id"@,
            "validator num"@,
            "contributor num"@,
            "batch num"@,
            "tx size(Bytes)/tx"@,
            "block num"@,
            "epoch_time(latency)"@,
        ],
    ) + "|"@ + column_rules(7) + "\n"@);
}

/// A table line of seven cells, written out.
proof fn lemma_table_line_of_seven(
    a: Seq<char>,
    b: Seq<char>,
    c: Seq<char>,
    d: Seq<char>,
    e: Seq<char>,
    f: Seq<char>,
    g: Seq<char>,
)
    ensures
        table_row(seq![a, b, c, d, e, f, g]) == "| "@ + a + " | "@ + b + " | "@ + c + " | "@ + d
            + " | "@ + e + " | "@ + f + " | "@ + g + " |\n"@,
{
    let cells = seq![a, b, c, d, e, f, g];
    reveal_with_fuel(bars, 8);
    assert(cells.drop_last() =~= seq![a, b, c, d, e, f]);
    assert(seq![a, b, c, d, e, f].drop_last() =~= seq![a, b, c, d, e]);
    assert(seq![a, b, c, d, e].drop_last() =~= seq![a, b, c, d]);
    assert(seq![a, b, c, d].drop_last() =~= seq![a, b, c]);
    assert(seq![a, b, c].drop_last() =~= seq![a, b]);
    assert(seq![a, b].drop_last() =~= seq![a]);
    assert(seq![a].drop_last() =~= Seq::<Seq<char>>::empty());
    reveal_strlit("|");
    reveal_strlit(" ");
    reveal_strlit(" |");
    reveal_strlit("| ");
    reveal_strlit(" | ");
    reveal_strlit(" |\n");
    reveal_strlit("\n");
    assert(table_row(cells) =~= "| "@ + a + " | "@ + b + " | "@ + c + " | "@ + d + " | "@ + e
        + " | "@ + f + " | "@ + g + " |\n"@);
}

} // verus!
