//! Reading the gas station's execution log: the balance of the sponsor
//! wallet before and after a transaction, the transaction's sender, and
//! new total balances, from which balance updates and the fee paid are
//! recorded.
use vstd::prelude::*;

verus! {

broadcast use vstd::string::group_string_axioms;

/// The log line that gives the gas coin balance before a transaction.
pub open spec fn prior_balance_pattern() -> Seq<char> {
    r"Total gas coin balance prior to execution: (?P<balance>\d+) reservation_id="@
}

/// The log line that names the sender of the executed transaction.
pub open spec fn sender_pattern() -> Seq<char> {
    r"Executing transaction:.*?sender: (?P<sender>0x[0-9a-fA-F]+)"@
}

/// The log line that gives the gas coin balance after a transaction.
pub open spec fn after_balance_pattern() -> Seq<char> {
    r"New gas coin balance after execution: (?P<balance>\d+) reservation_id="@
}

/// The log line that gives the sponsor wallet's new total balance.
pub open spec fn new_total_balance_pattern() -> Seq<char> {
    r"After add_new_coins. New total balance: (?P<balance>\d+)"@
}

/// What matching the regular expression `pattern` against `haystack`
/// gives: `None` where the pattern is not a valid regular expression or
/// does not match; otherwise the text of the capture group named `group`
/// in the leftmost-first match, or `None` inside where that group took no
/// part in it.
pub uninterp spec fn regex_named_capture(pattern: Seq<char>, group: Seq<char>, haystack: Seq<char>) -> Option<
    Option<Seq<char>>,
>;

/// Matches a regular expression and reads one named capture group.
///
/// Calls `regex::Regex::new` on `pattern`, `Regex::captures` on
/// `haystack` and `Captures::name` with `group`. The result is named
/// `regex_named_capture` of the three texts; nothing more is claimed.
#[verifier::external_body]
fn named_capture(pattern: &str, group: &str, haystack: &str) -> (r: Option<Option<String>>)
    ensures
        r.deep_view() == regex_named_capture(pattern@, group@, haystack@),
{
    match regex::Regex::new(pattern) {
        Ok(re) => match re.captures(haystack) {
            Some(caps) => match caps.name(group) {
                Some(m) => Some(Some(m.as_str().to_string())),
                None => Some(None),
            },
            None => None,
        },
        Err(_) => None,
    }
}

/// The value of a character that is an ASCII digit.
pub open spec fn digit_value(c: char) -> int {
    c as int - '0' as int
}

/// Whether a character is an ASCII digit.
pub open spec fn is_ascii_digit(c: char) -> bool {
    '0' <= c <= '9'
}

/// The number that a sequence of ASCII digits spells in decimal.
pub open spec fn decimal_value(digits: Seq<char>) -> nat
    decreases digits.len(),
{
    if digits.len() == 0 {
        0
    } else {
        (decimal_value(digits.drop_last()) * 10 + digit_value(digits.last())) as nat
    }
}

/// The digits of a number's text: without its leading `+`, if it has one.
pub open spec fn unsigned_digits(text: Seq<char>) -> Seq<char> {
    if text.len() > 0 && text[0] == '+' { text.drop_first() } else { text }
}

/// What reading a text as a `u64` gives, as `str::parse::<u64>` does: an
/// optional `+`, then one or more ASCII digits, whose value must fit.
pub open spec fn parsed_u64(text: Seq<char>) -> Option<u64> {
    let digits = unsigned_digits(text);
    if digits.len() > 0 && (forall|i: int| 0 <= i < digits.len() ==> is_ascii_digit(#[trigger] digits[i]))
        && decimal_value(digits) <= u64::MAX {
        Some(decimal_value(digits) as u64)
    } else {
        None
    }
}

/// A prefix of a number's digits spells no more than the whole.
pub proof fn lemma_decimal_prefix(digits: Seq<char>, n: int)
    requires
        0 <= n <= digits.len(),
        forall|i: int| 0 <= i < digits.len() ==> is_ascii_digit(#[trigger] digits[i]),
    ensures
        decimal_value(digits.take(n)) <= decimal_value(digits),
    decreases digits.len(),
{
    if n < digits.len() {
        let shorter = digits.drop_last();
        assert(shorter.take(n) =~= digits.take(n));
        lemma_decimal_prefix(shorter, n);
        assert(is_ascii_digit(digits[digits.len() - 1]));
    } else {
        assert(digits.take(n) =~= digits);
    }
}

/// Reads a text as a `u64`, as `str::parse::<u64>` does.
pub fn parse_u64(text: &str) -> (r: Option<u64>)
    ensures
        r == parsed_u64(text@),
{
    let len = text.unicode_len();
    let mut start: usize = 0;
    if len > 0 && text.get_char(0) == '+' {
        start = 1;
    }
    let ghost digits = unsigned_digits(text@);
    assert(digits =~= text@.subrange(start as int, len as int));
    if start == len {
        return None;
    }
    let mut value: u64 = 0;
    let mut i: usize = start;
    while i < len
        invariant
            start <= i <= len,
            len == text@.len(),
            digits == text@.subrange(start as int, len as int),
            digits == unsigned_digits(text@),
            forall|j: int| 0 <= j < i - start ==> is_ascii_digit(#[trigger] digits[j]),
            value == decimal_value(digits.take(i - start)),
        decreases len - i,
    {
        let c = text.get_char(i);
        assert(digits[i - start] == c);
        if !('0' <= c && c <= '9') {
            assert(!is_ascii_digit(digits[i - start]));
            return None;
        }
        assert(digits.take(i - start + 1).drop_last() =~= digits.take(i - start));
        assert(digits.take(i - start + 1).last() == c);
        assert(decimal_value(digits.take(i - start + 1)) == value * 10 + digit_value(c));
        let d = (c as u32 - '0' as u32) as u64;
        match value.checked_mul(10) {
            Some(v10) => match v10.checked_add(d) {
                Some(v) => {
                    value = v;
                },
                None => {
                    proof {
                        if forall|j: int| 0 <= j < digits.len() ==> is_ascii_digit(#[trigger] digits[j]) {
                            lemma_decimal_prefix(digits, i - start + 1);
                        }
                    }
                    return None;
                },
            },
            None => {
                proof {
                    if forall|j: int| 0 <= j < digits.len() ==> is_ascii_digit(#[trigger] digits[j]) {
                        lemma_decimal_prefix(digits, i - start + 1);
                    }
                }
                return None;
            },
        }
        i = i + 1;
    }
    assert(digits.take(len - start) =~= digits);
    Some(value)
}

/// Which of the recognised kinds of log line a message is.
#[derive(Clone, Copy, Debug, PartialEq, Eq, Structural)]
pub enum LogLineKind {
    PriorBalance,
    Sender,
    AfterBalance,
    NewTotalBalance,
    Unrecognised,
}

/// How a log message is read: the first of the four patterns, in the order
/// prior balance, sender, after balance, new total balance, that matches
/// it, with the text of that pattern's capture group (`balance`, or
/// `sender` for the sender pattern).
pub open spec fn classify(message: Seq<char>) -> (LogLineKind, Option<Seq<char>>) {
    if let Some(c) = regex_named_capture(prior_balance_pattern(), "balance"@, message) {
        (LogLineKind::PriorBalance, c)
    } else if let Some(c) = regex_named_capture(sender_pattern(), "sender"@, message) {
        (LogLineKind::Sender, c)
    } else if let Some(c) = regex_named_capture(after_balance_pattern(), "balance"@, message) {
        (LogLineKind::AfterBalance, c)
    } else if let Some(c) = regex_named_capture(new_total_balance_pattern(), "balance"@, message) {
        (LogLineKind::NewTotalBalance, c)
    } else {
        (LogLineKind::Unrecognised, None)
    }
}

/// Reads one log message: its kind and the captured text.
pub fn classify_log_message(message: &str) -> (r: (LogLineKind, Option<String>))
    ensures
        (r.0, r.1.deep_view()) == classify(message@),
{
    if let Some(c) = named_capture(
        r"Total gas coin balance prior to execution: (?P<balance>\d+) reservation_id=",
        "balance",
        message,
    ) {
        return (LogLineKind::PriorBalance, c);
    }
    if let Some(c) = named_capture(r"Executing transaction:.*?sender: (?P<sender>0x[0-9a-fA-F]+)", "sender", message) {
        return (LogLineKind::Sender, c);
    }
    if let Some(c) = named_capture(
        r"New gas coin balance after execution: (?P<balance>\d+) reservation_id=",
        "balance",
        message,
    ) {
        return (LogLineKind::AfterBalance, c);
    }
    if let Some(c) = named_capture(r"After add_new_coins. New total balance: (?P<balance>\d+)", "balance", message) {
        return (LogLineKind::NewTotalBalance, c);
    }
    (LogLineKind::Unrecognised, None)
}

/// What has been read from the log so far.
#[derive(Debug)]
pub struct LogScan {
    /// The gas coin balance before the transaction; 0 until read.
    pub prior: u64,
    /// The gas coin balance after the transaction; 0 until read.
    pub after: u64,
    /// The transaction's sender; empty until read.
    pub wallet_address: String,
    /// The last new total balance read; 0 until read.
    pub new_total_balance: u64,
}

/// The abstract content of a log scan.
pub struct LogScanState {
    pub prior: u64,
    pub after: u64,
    pub wallet_address: Seq<char>,
    pub new_total_balance: u64,
}

impl View for LogScan {
    type V = LogScanState;

    open spec fn view(&self) -> LogScanState {
        LogScanState {
            prior: self.prior,
            after: self.after,
            wallet_address: self.wallet_address@,
            new_total_balance: self.new_total_balance,
        }
    }
}

impl LogScanState {
    /// Nothing read yet.
    pub open spec fn initial() -> LogScanState {
        LogScanState { prior: 0, after: 0, wallet_address: Seq::empty(), new_total_balance: 0 }
    }

    /// The scan after one more log line, and the new total balance to record
    /// if the line gives one. A balance that does not read as a `u64` is
    /// ignored.
    pub open spec fn step(self, kind: LogLineKind, capture: Option<Seq<char>>) -> (LogScanState, Option<u64>) {
        match capture {
            None => (self, None),
            Some(text) => match kind {
                LogLineKind::PriorBalance => match parsed_u64(text) {
                    Some(v) => (LogScanState { prior: v, ..self }, None),
                    None => (self, None),
                },
                LogLineKind::Sender => (LogScanState { wallet_address: text, ..self }, None),
                LogLineKind::AfterBalance => match parsed_u64(text) {
                    Some(v) => (LogScanState { after: v, ..self }, None),
                    None => (self, None),
                },
                LogLineKind::NewTotalBalance => match parsed_u64(text) {
                    Some(v) => (LogScanState { new_total_balance: v, ..self }, Some(v)),
                    None => (self, None),
                },
                LogLineKind::Unrecognised => (self, None),
            },
        }
    }
}

/// The scan of a sequence of log messages, read in order, and the new total
/// balances to record, in the order they were read.
pub open spec fn scan(messages: Seq<Seq<char>>) -> (LogScanState, Seq<u64>)
    decreases messages.len(),
{
    if messages.len() == 0 {
        (LogScanState::initial(), Seq::empty())
    } else {
        let (state, updates) = scan(messages.drop_last());
        let (kind, capture) = classify(messages.last());
        let (next, update) = state.step(kind, capture);
        match update {
            Some(v) => (next, updates.push(v)),
            None => (next, updates),
        }
    }
}

impl LogScan {
    /// Takes one more log line into account; returns the new total balance
    /// to record, if the line gives one.
    pub fn step(&mut self, kind: LogLineKind, capture: Option<String>) -> (update: Option<u64>)
        ensures
            (final(self)@, update) == old(self)@.step(kind, capture.deep_view()),
    {
        match capture {
            None => None,
            Some(text) => match kind {
                LogLineKind::PriorBalance => {
                    if let Some(v) = parse_u64(text.as_str()) {
                        self.prior = v;
                    }
                    None
                },
                LogLineKind::Sender => {
                    self.wallet_address = text;
                    None
                },
                LogLineKind::AfterBalance => {
                    if let Some(v) = parse_u64(text.as_str()) {
                        self.after = v;
                    }
                    None
                },
                LogLineKind::NewTotalBalance => {
                    match parse_u64(text.as_str()) {
                        Some(v) => {
                            self.new_total_balance = v;
                            Some(v)
                        },
                        None => None,
                    }
                },
                LogLineKind::Unrecognised => None,
            },
        }
    }
}

/// The texts of a sequence of messages.
pub open spec fn texts(messages: Seq<String>) -> Seq<Seq<char>> {
    messages.map_values(|m: String| m@)
}

/// Reads a batch of log messages in order: what the scan found, and the
/// new total balances to record, in order.
pub fn read_log_events(messages: &Vec<String>) -> (r: (LogScan, Vec<u64>))
    ensures
        (r.0@, r.1@) == scan(texts(messages@)),
{
    let mut state = LogScan { prior: 0, after: 0, wallet_address: String::new(), new_total_balance: 0 };
    let mut updates: Vec<u64> = Vec::new();
    let mut i: usize = 0;
    assert(texts(messages@).take(0) =~= Seq::<Seq<char>>::empty());
    while i < messages.len()
        invariant
            i <= messages.len(),
            (state@, updates@) == scan(texts(messages@).take(i as int)),
        decreases messages.len() - i,
    {
        let (kind, capture) = classify_log_message(messages[i].as_str());
        let update = state.step(kind, capture);
        if let Some(v) = update {
            updates.push(v);
        }
        assert(texts(messages@).take(i + 1).drop_last() =~= texts(messages@).take(i as int));
        assert(texts(messages@).take(i + 1).last() == messages@[i as int]@);
        i = i + 1;
    }
    assert(texts(messages@).take(i as int) =~= texts(messages@));
    (state, updates)
}

/// The fee to record once a batch has been read: none where no prior
/// balance was read (or it was 0); otherwise the drop from the prior to the
/// after balance, charged to the sender. A balance that rose cannot be
/// charged.
pub fn fee_to_record(scan: &LogScan) -> (r: Option<(String, u64)>)
    requires
        scan.prior > 0 ==> scan.after <= scan.prior,
    ensures
        scan.prior == 0 ==> r is None,
        scan.prior > 0 ==> (r matches Some((sender, fee)) && sender@ == scan.wallet_address@ && fee
            == scan.prior - scan.after),
{
    if scan.prior > 0 {
        Some((scan.wallet_address.clone(), scan.prior - scan.after))
    } else {
        None
    }
}

} // verus!
