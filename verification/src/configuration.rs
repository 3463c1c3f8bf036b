//! The settings that the process is started with.

use crate::text::{all_digits, digit_of, digit_value};
use vstd::prelude::*;

verus! {

/// The character of a decimal digit.
pub open spec fn digit_char(digit: nat) -> char {
    if digit == 0 {
        '0'
    } else if digit == 1 {
        '1'
    } else if digit == 2 {
        '2'
    } else if digit == 3 {
        '3'
    } else if digit == 4 {
        '4'
    } else if digit == 5 {
        '5'
    } else if digit == 6 {
        '6'
    } else if digit == 7 {
        '7'
    } else if digit == 8 {
        '8'
    } else {
        '9'
    }
}

/// A number in decimal notation, without sign or leading zeros.
pub open spec fn decimal_digits(number: nat) -> Seq<char>
    decreases number,
{
    if number < 10 {
        seq![digit_char(number)]
    } else {
        decimal_digits(number / 10).push(digit_char(number % 10))
    }
}

fn digit_text(digit: u16) -> (text: &'static str)
    requires
        digit < 10,
    ensures
        text@ == seq![digit_char(digit as nat)],
{
    proof {
        reveal_strlit("0");
        reveal_strlit("1");
        reveal_strlit("2");
        reveal_strlit("3");
        reveal_strlit("4");
        reveal_strlit("5");
        reveal_strlit("6");
        reveal_strlit("7");
        reveal_strlit("8");
        reveal_strlit("9");
    }
    let text = if digit == 0 {
        "0"
    } else if digit == 1 {
        "1"
    } else if digit == 2 {
        "2"
    } else if digit == 3 {
        "3"
    } else if digit == 4 {
        "4"
    } else if digit == 5 {
        "5"
    } else if digit == 6 {
        "6"
    } else if digit == 7 {
        "7"
    } else if digit == 8 {
        "8"
    } else {
        "9"
    };
    assert(text@ =~= seq![digit_char(digit as nat)]);
    text
}

/// A port number in decimal notation.
pub fn decimal_text(number: u16) -> (text: String)
    ensures
        text@ == decimal_digits(number as nat),
    decreases number,
{
    if number < 10 {
        String::from_str(digit_text(number))
    } else {
        let text = decimal_text(number / 10).concat(digit_text(number % 10));
        assert(text@ =~= decimal_digits((number / 10) as nat).push(
            digit_char((number % 10) as nat),
        ));
        text
    }
}

/// The number that decimal digits denote.
pub open spec fn digits_value(digits: Seq<char>) -> nat
    decreases digits.len(),
{
    if digits.len() == 0 {
        0
    } else {
        digits_value(digits.drop_last()) * 10 + digit_value(digits.last()).unwrap()
    }
}

/// The digits of a number's text: the text without a leading plus sign.
pub open spec fn unsigned_digits(text: Seq<char>) -> Seq<char> {
    if text.len() > 0 && text[0] == '+' {
        text.skip(1)
    } else {
        text
    }
}

/// The number that a text denotes, if it denotes one: at least one decimal
/// digit, with or without a plus sign in front, and nothing else.
pub open spec fn unsigned_of(text: Seq<char>) -> Option<nat> {
    let digits = unsigned_digits(text);
    if digits.len() > 0 && all_digits(digits) {
        Some(digits_value(digits))
    } else {
        None
    }
}

/// The number that a text denotes, if it denotes one that is at most
/// `limit`.
pub open spec fn bounded_unsigned_of(text: Seq<char>, limit: u64) -> Option<u64> {
    match unsigned_of(text) {
        Some(number) => if number <= limit {
            Some(number as u64)
        } else {
            None
        },
        None => None,
    }
}

/// The fields of a list whose items are separated by commas. A list
/// without a comma is one field, and so is an empty list.
pub open spec fn comma_fields(list: Seq<char>) -> Seq<Seq<char>>
    decreases list.len(),
{
    if list.len() == 0 {
        seq![Seq::<char>::empty()]
    } else {
        let before = comma_fields(list.drop_last());
        if list.last() == ',' {
            before.push(Seq::<char>::empty())
        } else {
            before.drop_last().push(before.last().push(list.last()))
        }
    }
}

/// The characters of a text.
pub open spec fn characters_of() -> spec_fn(String) -> Seq<char> {
    |text: String| text@
}

/// More digits make a number no smaller.
proof fn lemma_digits_value_grows(digits: Seq<char>, i: int)
    requires
        0 <= i <= digits.len(),
    ensures
        digits_value(digits.take(i)) <= digits_value(digits),
    decreases digits.len() - i,
{
    if i < digits.len() {
        assert(digits.take(i + 1).drop_last() =~= digits.take(i));
        lemma_digits_value_grows(digits, i + 1);
    } else {
        assert(digits.take(i) =~= digits);
    }
}

/// Reads a number from its decimal text. The text is at least one digit,
/// with or without a plus sign in front; anything else, and a number above
/// `limit`, is no number.
pub fn parse_unsigned(text: &str, limit: u64) -> (number: Option<u64>)
    ensures
        number == bounded_unsigned_of(text@, limit),
{
    let length = text.unicode_len();
    let start: usize = if length > 0 && text.get_char(0) == '+' {
        1
    } else {
        0
    };
    let ghost digits = unsigned_digits(text@);
    if start == length {
        return None;
    }
    let mut value: u64 = 0;
    let mut i: usize = start;
    proof {
        assert(digits.take(0) =~= Seq::<char>::empty());
    }
    while i < length
        invariant
            start <= i <= length,
            length == text@.len(),
            digits == unsigned_digits(text@),
            digits.len() == length - start,
            forall|k: int| 0 <= k < digits.len() ==> digits[k] == text@[start + k],
            all_digits(digits.take(i - start)),
            value == digits_value(digits.take(i - start)),
            value <= limit,
        decreases length - i,
    {
        let c = text.get_char(i);
        proof {
            assert(digits[i - start] == c);
            assert(digits.take(i - start + 1).drop_last() =~= digits.take(i - start));
            assert(digits.take(i - start + 1).last() == c);
        }
        match digit_of(c) {
            None => {
                return None;
            },
            Some(digit) => {
                if digit > limit || value > (limit - digit) / 10 {
                    proof {
                        if all_digits(digits) {
                            lemma_digits_value_grows(digits, i - start + 1);
                        }
                    }
                    return None;
                }
                value = value * 10 + digit;
                proof {
                    assert forall|k: int| 0 <= k < i - start + 1 implies digit_value(
                        #[trigger] digits.take(i - start + 1)[k],
                    ) is Some by {
                        if k < i - start {
                            assert(digits.take(i - start)[k] == digits[k]);
                        }
                    }
                }
            },
        }
        i += 1;
    }
    proof {
        assert(digits.take(i - start) =~= digits);
    }
    Some(value)
}

/// Whether a switch is on: every text but `0` turns it on.
pub fn switch_is_on(text: &str) -> (on: bool)
    ensures
        on == (text@ != seq!['0']),
{
    let off = text.unicode_len() == 1 && text.get_char(0) == '0';
    proof {
        if off {
            assert(text@ =~= seq!['0']);
        }
    }
    !off
}

/// Splits a list at its commas. The fields keep their order and their
/// spaces; two commas in a row hold an empty field between them.
pub fn split_at_commas(list: &str) -> (fields: Vec<String>)
    ensures
        fields@.map_values(characters_of()) == comma_fields(list@),
{
    let length = list.unicode_len();
    let mut fields: Vec<String> = Vec::new();
    let mut start: usize = 0;
    let mut i: usize = 0;
    proof {
        assert(list@.take(0) =~= Seq::<char>::empty());
        assert(fields@.map_values(characters_of()).push(list@.subrange(0, 0)) =~= comma_fields(
            list@.take(0),
        ));
    }
    while i < length
        invariant
            start <= i <= length,
            length == list@.len(),
            fields@.map_values(characters_of()).push(list@.subrange(start as int, i as int))
                == comma_fields(list@.take(i as int)),
        decreases length - i,
    {
        let ghost done = fields@.map_values(characters_of());
        let ghost current = list@.subrange(start as int, i as int);
        proof {
            assert(list@.take(i + 1).drop_last() =~= list@.take(i as int));
            assert(list@.take(i + 1).last() == list@[i as int]);
            assert(done.push(current).drop_last() =~= done);
        }
        if list.get_char(i) == ',' {
            let field = String::from_str(list.substring_char(start, i));
            fields.push(field);
            start = i + 1;
            proof {
                assert(fields@.map_values(characters_of()) =~= done.push(current));
                assert(list@.subrange(start as int, i + 1) =~= Seq::<char>::empty());
            }
        } else {
            proof {
                assert(list@.subrange(start as int, i + 1) =~= current.push(list@[i as int]));
            }
        }
        i += 1;
    }
    let ghost done = fields@.map_values(characters_of());
    let field = String::from_str(list.substring_char(start, length));
    fields.push(field);
    proof {
        assert(list@.take(length as int) =~= list@);
        assert(fields@.map_values(characters_of()) =~= done.push(
            list@.subrange(start as int, length as int),
        ));
    }
    fields
}

/// The settings of the process: where it listens, which store it uses, how
/// it logs, how many commands the writer's queue holds, and which origins
/// may call it.
pub struct AppConfig {
    host: String,
    port: u16,
    db_url: String,
    log_filter: String,
    log_to_file: bool,
    log_directory: String,
    log_prefix: String,
    writer_channel_buffer_size: usize,
    allow_origins: Vec<String>,
}

impl AppConfig {
    pub closed spec fn host(&self) -> String {
        self.host
    }

    pub closed spec fn port(&self) -> u16 {
        self.port
    }

    pub closed spec fn db_url(&self) -> String {
        self.db_url
    }

    pub closed spec fn log_filter(&self) -> String {
        self.log_filter
    }

    pub closed spec fn logs_to_file(&self) -> bool {
        self.log_to_file
    }

    pub closed spec fn log_directory(&self) -> String {
        self.log_directory
    }

    pub closed spec fn log_prefix(&self) -> String {
        self.log_prefix
    }

    pub closed spec fn writer_channel_buffer_size(&self) -> usize {
        self.writer_channel_buffer_size
    }

    pub closed spec fn allow_origins(&self) -> Vec<String> {
        self.allow_origins
    }

    /// The settings with these values.
    pub fn new(
        host: String,
        port: u16,
        db_url: String,
        log_filter: String,
        log_to_file: bool,
        log_directory: String,
        log_prefix: String,
        writer_channel_buffer_size: usize,
        allow_origins: Vec<String>,
    ) -> (config: Self)
        ensures
            config.host() == host,
            config.port() == port,
            config.db_url() == db_url,
            config.log_filter() == log_filter,
            config.logs_to_file() == log_to_file,
            config.log_directory() == log_directory,
            config.log_prefix() == log_prefix,
            config.writer_channel_buffer_size() == writer_channel_buffer_size,
            config.allow_origins() == allow_origins,
    {
        AppConfig {
            host,
            port,
            db_url,
            log_filter,
            log_to_file,
            log_directory,
            log_prefix,
            writer_channel_buffer_size,
            allow_origins,
        }
    }

    /// The settings as they are read from the environment: the port and
    /// the size of the writer's queue as decimal texts, the log switch as a
    /// text that is `0` for off, and the allowed origins as one list with
    /// commas between them. None where the port or the size is no number in
    /// its range.
    pub fn from_settings(
        host: String,
        port: &str,
        db_url: String,
        log_filter: String,
        log_to_file: &str,
        log_directory: String,
        log_prefix: String,
        writer_channel_buffer_size: &str,
        allow_origins: &str,
    ) -> (config: Option<Self>)
        ensures
            config is Some <==> bounded_unsigned_of(port@, 0xffff) is Some && bounded_unsigned_of(
                writer_channel_buffer_size@,
                usize::MAX as u64,
            ) is Some,
            config matches Some(settings) ==> {
                &&& settings.host() == host
                &&& Some(settings.port() as u64) == bounded_unsigned_of(port@, 0xffff)
                &&& settings.db_url() == db_url
                &&& settings.log_filter() == log_filter
                &&& settings.logs_to_file() == (log_to_file@ != seq!['0'])
                &&& settings.log_directory() == log_directory
                &&& settings.log_prefix() == log_prefix
                &&& Some(settings.writer_channel_buffer_size() as u64) == bounded_unsigned_of(
                    writer_channel_buffer_size@,
                    usize::MAX as u64,
                )
                &&& settings.allow_origins()@.map_values(characters_of()) == comma_fields(
                    allow_origins@,
                )
            },
    {
        let port = match parse_unsigned(port, 0xffff) {
            Some(number) => number as u16,
            None => {
                return None;
            },
        };
        let size = match parse_unsigned(writer_channel_buffer_size, usize::MAX as u64) {
            Some(number) => number as usize,
            None => {
                return None;
            },
        };
        Some(
            AppConfig::new(
                host,
                port,
                db_url,
                log_filter,
                switch_is_on(log_to_file),
                log_directory,
                log_prefix,
                size,
                split_at_commas(allow_origins),
            ),
        )
    }

    /// The address to listen on: the host, a colon, and the port in decimal
    /// notation.
    pub fn get_address(&self) -> (address: String)
        ensures
            address@ == self.host()@ + seq![':'] + decimal_digits(self.port() as nat),
    {
        proof {
            reveal_strlit(":");
        }
        let port = decimal_text(self.port);
        let address = self.host.clone().concat(":").concat(port.as_str());
        assert(":"@ =~= seq![':']);
        address
    }

    pub fn get_db_url(&self) -> (url: String)
        ensures
            url == self.db_url(),
    {
        self.db_url.clone()
    }

    pub fn get_log_filter(&self) -> (filter: String)
        ensures
            filter == self.log_filter(),
    {
        self.log_filter.clone()
    }

    pub fn log_to_file(&self) -> (flag: bool)
        ensures
            flag == self.logs_to_file(),
    {
        self.log_to_file
    }

    pub fn get_log_directory(&self) -> (directory: String)
        ensures
            directory == self.log_directory(),
    {
        self.log_directory.clone()
    }

    pub fn get_log_prefix(&self) -> (prefix: String)
        ensures
            prefix == self.log_prefix(),
    {
        self.log_prefix.clone()
    }

    /// How many commands the writer's queue holds before a submitter has to
    /// wait.
    pub fn get_writer_channel_buffer_size(&self) -> (size: usize)
        ensures
            size == self.writer_channel_buffer_size(),
    {
        self.writer_channel_buffer_size
    }

    pub fn get_allow_origins(&self) -> (origins: &Vec<String>)
        ensures
            *origins == self.allow_origins(),
    {
        &self.allow_origins
    }
}

} // verus!
