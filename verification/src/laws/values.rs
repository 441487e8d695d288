//! Laws of texts, numbers and identifiers.

use vstd::arithmetic::power::pow;
use vstd::prelude::*;

use crate::models::{SpdeDefaults, StatusPayload, Task, TaskItem, TaskOverrides};

verus! {

/// Blank text trims to nothing.
pub proof fn law_blank_trims_to_nothing(s: Seq<char>)
    requires
        forall|i: int| 0 <= i < s.len() ==> crate::text::is_white_space(#[trigger] s[i]),
    ensures
        crate::text::trimmed(s).len() == 0,
    decreases s.len(),
{
    if s.len() > 0 {
        let rest = s.skip(1);
        assert forall|i: int| 0 <= i < rest.len() implies crate::text::is_white_space(
            #[trigger] rest[i],
        ) by {
            assert(rest[i] == s[i + 1]);
        }
        law_blank_trims_to_nothing(rest);
    }
}

proof fn lemma_trim_start(s: Seq<char>) -> (n: int)
    ensures
        0 <= n <= s.len(),
        crate::text::trim_start(s) == s.skip(n),
        forall|i: int| 0 <= i < n ==> crate::text::is_white_space(#[trigger] s[i]),
        n < s.len() ==> !crate::text::is_white_space(s[n]),
    decreases s.len(),
{
    if s.len() > 0 && crate::text::is_white_space(s[0]) {
        let rest = s.skip(1);
        let m = lemma_trim_start(rest);
        assert(rest.skip(m) == s.skip(m + 1));
        assert forall|i: int| 0 <= i < m + 1 implies crate::text::is_white_space(
            #[trigger] s[i],
        ) by {
            if i > 0 {
                assert(rest[i - 1] == s[i]);
            }
        }
        m + 1
    } else {
        assert(s.skip(0) == s);
        0
    }
}

proof fn lemma_trim_end(s: Seq<char>) -> (n: int)
    ensures
        0 <= n <= s.len(),
        crate::text::trim_end(s) == s.take(n),
        forall|i: int| n <= i < s.len() ==> crate::text::is_white_space(#[trigger] s[i]),
        n > 0 ==> !crate::text::is_white_space(s[n - 1]),
    decreases s.len(),
{
    if s.len() > 0 && crate::text::is_white_space(s.last()) {
        let init = s.drop_last();
        let m = lemma_trim_end(init);
        assert(init.take(m) == s.take(m));
        assert forall|i: int| m <= i < s.len() implies crate::text::is_white_space(
            #[trigger] s[i],
        ) by {
            if i < s.len() - 1 {
                assert(init[i] == s[i]);
            }
        }
        m
    } else {
        assert(s.take(s.len() as int) == s);
        s.len() as int
    }
}

/// Trimming takes white space from both ends and nothing else, and leaves none there.
pub proof fn law_trimming(s: Seq<char>)
    ensures
        ({
            let t = crate::text::trimmed(s);
            &&& exists|before: Seq<char>, after: Seq<char>| #[trigger]
                (before + t + after) == s && (forall|i: int|
                    0 <= i < before.len() ==> crate::text::is_white_space(#[trigger] before[i]))
                    && (forall|i: int|
                    0 <= i < after.len() ==> crate::text::is_white_space(#[trigger] after[i]))
            &&& t.len() > 0 ==> !crate::text::is_white_space(t[0])
                && !crate::text::is_white_space(t.last())
            &&& crate::text::trimmed(t) == t
        }),
{
    let n = lemma_trim_start(s);
    let rest = s.skip(n);
    let m = lemma_trim_end(rest);
    let t = crate::text::trimmed(s);
    let before = s.take(n);
    let after = rest.skip(m);
    assert(before + t + after == s);
    assert forall|i: int| 0 <= i < after.len() implies crate::text::is_white_space(
        #[trigger] after[i],
    ) by {
        assert(after[i] == rest[m + i]);
    }
    if t.len() > 0 {
        assert(t[0] == s[n]);
        assert(t.last() == rest[m - 1]);
    }
    assert(crate::text::trim_start(t) == t);
}

/// The last segment follows the last colon: it ends the text, holds no colon, and stands behind
/// one unless it is the whole text.
pub proof fn law_last_segment(s: Seq<char>)
    ensures
        ({
            let seg = crate::text::last_segment_of(s);
            let at = s.len() - seg.len();
            &&& seg.is_suffix_of(s)
            &&& forall|i: int| 0 <= i < seg.len() ==> #[trigger] seg[i] != ':'
            &&& at > 0 ==> s[at - 1] == ':'
        }),
    decreases s.len(),
{
    let n = crate::text::after_last_colon(s);
    if s.len() == 0 || s.last() == ':' {
        assert(s.skip(n as int).len() == 0);
    } else {
        let init = s.drop_last();
        law_last_segment(init);
        let seg = crate::text::last_segment_of(s);
        let shorter = crate::text::last_segment_of(init);
        lemma_after_last_colon(init);
        assert(seg.drop_last() == shorter);
        assert forall|i: int| 0 <= i < seg.len() implies #[trigger] seg[i] != ':' by {
            if i < shorter.len() {
                assert(seg[i] == shorter[i]);
            }
        }
    }
}

proof fn lemma_after_last_colon(s: Seq<char>)
    ensures
        crate::text::after_last_colon(s) <= s.len(),
    decreases s.len(),
{
    if s.len() > 0 {
        lemma_after_last_colon(s.drop_last());
    }
}

/// The nodes are sent to the port that is announced to the runtime: where the listen address names
/// a port, the digits with which the nodes' address ends write the announced one. Where it names
/// none, the default is announced.
pub proof fn law_one_port(listen: Seq<char>)
    ensures
        ({
            let segment = crate::text::last_segment_of(listen);
            let digits = crate::text::unsigned_part(segment);
            let port = crate::comm::announced_port(listen);
            match crate::text::u16_of(segment) {
                Some(named) => {
                    &&& port == named
                    &&& crate::text::all_digits(digits)
                    &&& crate::text::decimal(digits) == port
                    &&& crate::task_config::master_of(listen) == "http://127.0.0.1:"@ + segment
                    &&& digits.is_suffix_of(crate::task_config::master_of(listen))
                },
                None => port == 5566,
            }
        }),
{
    let segment = crate::text::last_segment_of(listen);
    let digits = crate::text::unsigned_part(segment);
    let master = crate::task_config::master_of(listen);
    if crate::text::u16_of(segment) is Some {
        lemma_decimal_not_negative(digits);
        assert(master.subrange(master.len() - digits.len(), master.len() as int) =~= digits);
    }
}

proof fn lemma_decimal_not_negative(digits: Seq<char>)
    requires
        crate::text::all_digits(digits),
    ensures
        crate::text::decimal(digits) >= 0,
    decreases digits.len(),
{
    if digits.len() > 0 {
        assert(crate::text::is_digit(digits[digits.len() - 1]));
        let init = digits.drop_last();
        assert forall|i: int| 0 <= i < init.len() implies crate::text::is_digit(
            #[trigger] init[i],
        ) by {
            assert(crate::text::is_digit(digits[i]));
        }
        lemma_decimal_not_negative(init);
    }
}

/// A column stores an unsigned number modulo 2^64, so that no two numbers are stored alike and
/// small ones are stored as they are.
pub proof fn law_stored(a: u64, b: u64)
    ensures
        (crate::statement::stored(a) - a) % 0x1_0000_0000_0000_0000 == 0,
        a < 0x8000_0000_0000_0000 ==> crate::statement::stored(a) == a,
        crate::statement::stored(a) == crate::statement::stored(b) ==> a == b,
{
}

/// A load lies between none and a full one, grows with the number of tasks, and is none exactly
/// where there are no tasks.
pub proof fn law_load(a: u32, b: u32)
    ensures
        0 <= crate::client::load_quarters(a) <= 4,
        a <= 4 ==> crate::client::load_quarters(a) == a,
        a <= b ==> crate::client::load_quarters(a) <= crate::client::load_quarters(b),
        crate::client::load_quarters(a) == 0 <==> a == 0,
        crate::client::load_quarters(a) == 4 <==> a >= 4,
{
}

/// A task without overrides gets the defaults.
pub proof fn law_defaults_hold(defaults: SpdeDefaults, task: Task)
    requires
        task.overrides == (TaskOverrides {
            max_concurrent: None,
            connections_per_file: None,
            retry_times: None,
            timeout: None,
            skip_tls_verify: None,
            dry_run: None,
            save_path: None,
        }),
    ensures
        ({
            let item = crate::task_config::task_item(defaults, task);
            &&& item.url == task.url
            &&& item.filename == task.filename
            &&& item.save_path == defaults.save_path
            &&& item.max_concurrent == defaults.max_concurrent
            &&& item.connections_per_file == defaults.connections_per_file
            &&& item.retry_times == defaults.retry_times
            &&& item.timeout == defaults.timeout
            &&& item.dry_run == defaults.dry_run
            &&& item.skip_tls_verify == defaults.skip_tls_verify
        }),
{
}

/// Where a task sets something, the defaults do not matter.
pub proof fn law_overrides_win(defaults: SpdeDefaults, task: Task)
    ensures
        ({
            let item = crate::task_config::task_item(defaults, task);
            let o = task.overrides;
            &&& o.save_path is Some ==> Some(item.save_path) == o.save_path
            &&& o.max_concurrent is Some ==> Some(item.max_concurrent) == o.max_concurrent
            &&& o.connections_per_file is Some ==> Some(item.connections_per_file)
                == o.connections_per_file
            &&& o.retry_times is Some ==> Some(item.retry_times) == o.retry_times
            &&& o.timeout is Some ==> Some(item.timeout) == o.timeout
            &&& o.dry_run is Some ==> Some(item.dry_run) == o.dry_run
            &&& o.skip_tls_verify is Some ==> Some(item.skip_tls_verify) == o.skip_tls_verify
        }),
{
}

/// No override reaches whether a download resumes and through which proxies it goes.
pub proof fn law_not_overridden(defaults: SpdeDefaults, task: Task)
    ensures
        crate::task_config::task_item(defaults, task).resume == defaults.resume,
        crate::task_config::task_item(defaults, task).http_proxy == defaults.http_proxy,
        crate::task_config::task_item(defaults, task).https_proxy == defaults.https_proxy,
{
}

/// An identifier that carries a version is not the nil one.
pub proof fn law_generated_ids_are_not_nil(id: u128, version: int)
    requires
        crate::ids::has_version(id, version),
    ensures
        id != crate::ids::NIL,
{
    vstd::arithmetic::power::lemma_pow_positive(16, 15);
    vstd::arithmetic::div_mod::lemma_basic_div(0, pow(16, 15));
}

proof fn lemma_hex_digit_value(n: int)
    requires
        0 <= n < 16,
    ensures
        crate::ids::hex_value(crate::ids::hex_digit(n)) == Some(n),
{
}

/// The 32 digits of an identifier.
spec fn digits_of(id: u128) -> Seq<char> {
    Seq::new(32, |k: int| crate::ids::hex_digit(crate::ids::nibble(id, k)))
}

/// The leading `m` digits of an identifier write its leading part.
proof fn lemma_leading_digits(id: u128, m: int)
    requires
        0 <= m <= 32,
    ensures
        crate::ids::hex_number(digits_of(id).take(m)) == id as int / pow(16, (32 - m) as nat),
    decreases m,
{
    if m == 0 {
        assert(pow(16, 32) == 0x1_0000_0000_0000_0000_0000_0000_0000_0000) by {
            reveal_with_fuel(pow, 33);
        }
        vstd::arithmetic::div_mod::lemma_basic_div(id as int, pow(16, 32));
    } else {
        lemma_leading_digits(id, m - 1);
        let p = pow(16, (32 - m) as nat);
        vstd::arithmetic::power::lemma_pow_positive(16, (32 - m) as nat);
        assert(pow(16, (33 - m) as nat) == p * 16) by {
            reveal(pow);
            vstd::arithmetic::mul::lemma_mul_is_commutative(16, p);
        }
        vstd::arithmetic::div_mod::lemma_div_denominator(id as int, p, 16);
        vstd::arithmetic::div_mod::lemma_fundamental_div_mod(id as int / p, 16);
        assert(digits_of(id).take(m).drop_last() == digits_of(id).take(m - 1));
        lemma_hex_digit_value(crate::ids::nibble(id, m - 1));
    }
}

/// An identifier that was written in its hyphenated form reads back.
pub proof fn law_written_ids_read_back(id: u128)
    ensures
        crate::ids::parsed_id(crate::ids::hyphenated(id)) == Some(id),
{
    let text = crate::ids::hyphenated(id);
    let digits = Seq::new(32, |k: int| text[crate::ids::digit_index(k)]);
    assert forall|k: int| 0 <= k < 32 implies #[trigger] digits[k] == digits_of(id)[k] by {
        let i = crate::ids::digit_index(k);
        assert(!crate::ids::is_hyphen_index(i));
        assert(i - crate::ids::hyphens_before(i) == k);
    }
    assert(digits =~= digits_of(id));
    assert forall|k: int| 0 <= k < 32 implies crate::ids::hex_value(#[trigger] digits[k]) is Some by {
        lemma_hex_digit_value(crate::ids::nibble(id, k));
    }
    lemma_leading_digits(id, 32);
    assert(digits_of(id).take(32) == digits_of(id));
    assert(pow(16, 0) == 1) by {
        reveal(pow);
    }
}

/// No two identifiers have the same hyphenated form, so that no two nodes share a row.
pub proof fn law_hyphenated_injective(a: u128, b: u128)
    requires
        crate::ids::hyphenated(a) == crate::ids::hyphenated(b),
    ensures
        a == b,
{
    law_written_ids_read_back(a);
    law_written_ids_read_back(b);
}

/// Each setting of a task stands on its own: what the task overrides, and else the default of that
/// setting, whatever the task overrides besides. The address and the name of the file are always the
/// task's.
pub proof fn law_each_setting_on_its_own(defaults: SpdeDefaults, task: Task)
    ensures
        ({
            let item = crate::task_config::task_item(defaults, task);
            let o = task.overrides;
            &&& item.url == task.url
            &&& item.filename == task.filename
            &&& o.save_path is None ==> item.save_path == defaults.save_path
            &&& o.save_path matches Some(v) ==> item.save_path == v
            &&& o.max_concurrent is None ==> item.max_concurrent == defaults.max_concurrent
            &&& o.max_concurrent matches Some(v) ==> item.max_concurrent == v
            &&& o.connections_per_file is None ==> item.connections_per_file
                == defaults.connections_per_file
            &&& o.connections_per_file matches Some(v) ==> item.connections_per_file == v
            &&& o.retry_times is None ==> item.retry_times == defaults.retry_times
            &&& o.retry_times matches Some(v) ==> item.retry_times == v
            &&& o.timeout is None ==> item.timeout == defaults.timeout
            &&& o.timeout matches Some(v) ==> item.timeout == v
            &&& o.dry_run is None ==> item.dry_run == defaults.dry_run
            &&& o.dry_run matches Some(v) ==> item.dry_run == v
            &&& o.skip_tls_verify is None ==> item.skip_tls_verify == defaults.skip_tls_verify
            &&& o.skip_tls_verify matches Some(v) ==> item.skip_tls_verify == v
            &&& item.resume == defaults.resume
            &&& item.http_proxy == defaults.http_proxy
            &&& item.https_proxy == defaults.https_proxy
        }),
{
}

/// Two tasks with the same overrides get the same settings, whatever they download.
pub proof fn law_settings_ignore_the_file(defaults: SpdeDefaults, a: Task, b: Task)
    requires
        a.overrides == b.overrides,
    ensures
        crate::task_config::task_item(defaults, a) == (TaskItem {
            url: a.url,
            filename: a.filename,
            ..crate::task_config::task_item(defaults, b)
        }),
{
}

/// Nodes are sent to this host, to what follows the last colon of the listen address.
pub proof fn law_address_for_nodes(listen: Seq<char>)
    ensures
        crate::task_config::master_of(listen) == "http://127.0.0.1:"@
            + crate::text::last_segment_of(listen),
{
}

/// A port is written as one or more digits, after a `+` or not; it is the number that they write,
/// where that is at most 65535. No other text writes one.
pub proof fn law_port_numbers(s: Seq<char>, digits: Seq<char>)
    requires
        s == digits || s == seq!['+'] + digits,
        digits.len() == 0 || digits[0] != '+',
    ensures
        crate::text::u16_of(s) is Some <==> {
            &&& digits.len() > 0
            &&& forall|i: int|
                0 <= i < digits.len() ==> '0' <= #[trigger] digits[i] && digits[i] <= '9'
            &&& crate::text::decimal(digits) <= 65535
        },
        crate::text::u16_of(s) matches Some(n) ==> n == crate::text::decimal(digits),
{
    if s != digits {
        assert(s.skip(1) =~= digits);
    }
    assert(crate::text::unsigned_part(s) =~= digits);
    assert((forall|i: int| 0 <= i < digits.len() ==> '0' <= #[trigger] digits[i] && digits[i] <= '9')
        <==> crate::text::all_digits(digits)) by {
        if crate::text::all_digits(digits) {
            assert forall|i: int| 0 <= i < digits.len() implies '0' <= #[trigger] digits[i]
                && digits[i] <= '9' by {
                assert(crate::text::is_digit(digits[i]));
            }
        }
    }
    if crate::text::all_digits(digits) {
        lemma_decimal_not_negative(digits);
    }
}

/// A further digit multiplies a number by ten and adds its own value; no digits write zero.
pub proof fn law_digits_write_numbers(digits: Seq<char>, c: char)
    requires
        '0' <= c <= '9',
    ensures
        crate::text::decimal(Seq::<char>::empty()) == 0,
        crate::text::decimal(digits.push(c)) == 10 * crate::text::decimal(digits) + (c as int
            - '0' as int),
{
    assert(digits.push(c).drop_last() =~= digits);
}

/// A status that could not be read counts as an idle node that has done nothing.
pub proof fn law_blank_status()
    ensures
        StatusPayload::blank().active_tasks == 0,
        StatusPayload::blank().bytes_downloaded == 0,
        !StatusPayload::blank().busy,
        StatusPayload::blank().total_speed_bps == 0,
        StatusPayload::blank().last_error is None,
        crate::client::status_of(None) == StatusPayload::blank(),
{
}

/// The hyphenated form of an identifier has 36 characters: hyphens behind the first 8 digits and
/// behind three groups of 4, and lower-case digits elsewhere.
pub proof fn law_hyphenated_form(id: u128)
    ensures
        ({
            let text = crate::ids::hyphenated(id);
            &&& text.len() == 36
            &&& text[8] == '-' && text[13] == '-' && text[18] == '-' && text[23] == '-'
            &&& forall|i: int|
                0 <= i < 36 && i != 8 && i != 13 && i != 18 && i != 23 ==> ('0' <= #[trigger] text[i]
                    && text[i] <= '9') || ('a' <= text[i] && text[i] <= 'f')
        }),
{
    let text = crate::ids::hyphenated(id);
    assert forall|i: int| 0 <= i < 36 && i != 8 && i != 13 && i != 18 && i != 23 implies ('0'
        <= #[trigger] text[i] && text[i] <= '9') || ('a' <= text[i] && text[i] <= 'f') by {
        lemma_hex_digit_value(crate::ids::nibble(id, i - crate::ids::hyphens_before(i)));
    }
}

/// The four forms of an identifier are read alike: braces around the hyphenated form, `urn:uuid:`
/// before it and leaving out its hyphens change nothing. Text of any other length is not read.
pub proof fn law_forms_are_read_alike(text: Seq<char>, other: Seq<char>)
    requires
        text.len() == 36,
        other.len() != 32 && other.len() != 36 && other.len() != 38 && other.len() != 45,
    ensures
        crate::ids::parsed_id(seq!['{'] + text + seq!['}']) == crate::ids::parsed_id(text),
        crate::ids::parsed_id("urn:uuid:"@ + text) == crate::ids::parsed_id(text),
        text[8] == '-' && text[13] == '-' && text[18] == '-' && text[23] == '-'
            ==> crate::ids::parsed_id(
            text.subrange(0, 8) + text.subrange(9, 13) + text.subrange(14, 18) + text.subrange(
                19,
                23,
            ) + text.subrange(24, 36),
        ) == crate::ids::parsed_id(text),
        text[8] != '-' || text[13] != '-' || text[18] != '-' || text[23] != '-'
            ==> crate::ids::parsed_id(text) is None,
        crate::ids::parsed_id(other) is None,
{
    reveal_strlit("urn:uuid:");
    let braced = seq!['{'] + text + seq!['}'];
    assert(braced.subrange(1, 37) =~= text);
    let urn = "urn:uuid:"@ + text;
    assert(urn.take(9) =~= "urn:uuid:"@);
    assert(urn.skip(9) =~= text);
    let digits = text.subrange(0, 8) + text.subrange(9, 13) + text.subrange(14, 18)
        + text.subrange(19, 23) + text.subrange(24, 36);
    assert(Seq::new(32, |k: int| text[crate::ids::digit_index(k)]) =~= digits);
    assert(crate::ids::is_hyphen_index(8) && crate::ids::is_hyphen_index(13)
        && crate::ids::is_hyphen_index(18) && crate::ids::is_hyphen_index(23));
}

/// Two texts of 32 digits are read as the same identifier if their digits agree, in letters of
/// either case. A text of that length with anything but digits is not read.
pub proof fn law_digits_are_read(a: Seq<char>, b: Seq<char>)
    requires
        a.len() == 32,
        b.len() == 32,
    ensures
        crate::ids::parsed_id(a) is Some <==> forall|i: int|
            0 <= i < 32 ==> is_hex(#[trigger] a[i]),
        (forall|i: int| 0 <= i < 32 ==> is_hex(#[trigger] a[i])) && (forall|i: int|
            0 <= i < 32 ==> same_digit(#[trigger] a[i], b[i])) ==> crate::ids::parsed_id(a)
            == crate::ids::parsed_id(b),
{
    assert(forall|i: int|
        0 <= i < 32 ==> (is_hex(#[trigger] a[i]) <==> crate::ids::hex_value(a[i]) is Some));
    if (forall|i: int| 0 <= i < 32 ==> is_hex(#[trigger] a[i])) && (forall|i: int|
        0 <= i < 32 ==> same_digit(#[trigger] a[i], b[i])) {
        assert forall|i: int| 0 <= i < 32 implies crate::ids::hex_value(#[trigger] a[i])
            == crate::ids::hex_value(b[i]) by {
            assert(is_hex(a[i]));
            assert(same_digit(a[i], b[i]));
        }
        lemma_same_number(a, b);
        assert forall|i: int| 0 <= i < 32 implies crate::ids::hex_value(#[trigger] b[i]) is Some by {
            assert(crate::ids::hex_value(a[i]) is Some);
        }
    }
}

/// Whether a character is a hexadecimal digit, in either case.
pub open spec fn is_hex(c: char) -> bool {
    ('0' <= c && c <= '9') || ('a' <= c && c <= 'f') || ('A' <= c && c <= 'F')
}

/// Whether two characters are the same but for the case of their letters.
pub open spec fn same_digit(a: char, b: char) -> bool {
    ||| a == b
    ||| 'a' <= a <= 'f' && a as int == b as int + 32
    ||| 'A' <= a <= 'F' && a as int + 32 == b as int
}

proof fn lemma_same_number(a: Seq<char>, b: Seq<char>)
    requires
        a.len() == b.len(),
        forall|i: int|
            0 <= i < a.len() ==> crate::ids::hex_value(#[trigger] a[i]) == crate::ids::hex_value(
                b[i],
            ),
    ensures
        crate::ids::hex_number(a) == crate::ids::hex_number(b),
    decreases a.len(),
{
    if a.len() > 0 {
        assert forall|i: int| 0 <= i < a.len() - 1 implies crate::ids::hex_value(
            #[trigger] a.drop_last()[i],
        ) == crate::ids::hex_value(b.drop_last()[i]) by {
            assert(crate::ids::hex_value(a[i]) == crate::ids::hex_value(b[i]));
        }
        lemma_same_number(a.drop_last(), b.drop_last());
        assert(crate::ids::hex_value(a[a.len() - 1]) == crate::ids::hex_value(b[b.len() - 1]));
    }
}

/// A time stamp has a date and a time of day behind its year, to the second, and ends with the
/// offset of UTC; so it is never blank.
pub proof fn law_time_stamps(s: Seq<char>)
    requires
        crate::clock::is_utc_stamp(s),
    ensures
        s.len() >= 25,
        "+00:00"@.is_suffix_of(s),
        exists|y: int|
            #![trigger s[y]]
            {
                &&& 4 <= y <= s.len() - 21
                &&& s[y] == '-' && s[y + 3] == '-' && s[y + 6] == 'T'
                &&& s[y + 9] == ':' && s[y + 12] == ':'
                &&& forall|i: int|
                    1 <= i < y ==> '0' <= #[trigger] s[i] && s[i] <= '9'
                &&& '0' <= s[y + 1] <= '1' && '0' <= s[y + 2] <= '9'
                &&& '0' <= s[y + 4] <= '3' && '0' <= s[y + 5] <= '9'
                &&& '0' <= s[y + 7] <= '2' && '0' <= s[y + 8] <= '9'
                &&& '0' <= s[y + 10] <= '5' && '0' <= s[y + 11] <= '9'
                &&& '0' <= s[y + 13] <= '5' && '0' <= s[y + 14] <= '9'
            },
{
    reveal_strlit("+00:00");
    let (year, time, fraction) = choose|
        year: Seq<char>,
        time: Seq<char>,
        fraction: Seq<char>,
    |
        {
            &&& s == #[trigger] crate::clock::stamp_of(year, time, fraction)
            &&& crate::clock::is_year(year)
            &&& crate::clock::is_time_of_year(time)
            &&& crate::clock::is_fraction(fraction)
        };
    let y = year.len() as int;
    assert(s.subrange(s.len() - 6, s.len() as int) =~= "+00:00"@);
    assert forall|k: int| 0 <= k < 15 implies #[trigger] s[y + k] == time[k] by {}
    lemma_pair(time, 1, 12);
    lemma_pair(time, 4, 31);
    lemma_pair(time, 7, 23);
    lemma_pair(time, 10, 59);
    lemma_pair(time, 13, 59);
    assert(s[y + 0] == time[0]);
    assert forall|i: int| 1 <= i < y implies '0' <= #[trigger] s[i] && s[i] <= '9' by {
        assert(s[i] == year[i]);
        if year.len() == 4 {
            assert(crate::text::is_digit(year[i]));
        } else {
            assert(crate::text::is_digit(year.skip(1)[i - 1]));
        }
    }
    assert(s[y] == '-');
}

proof fn lemma_pair(s: Seq<char>, i: int, high: int)
    requires
        0 <= i <= s.len() - 2,
        exists|low: int| crate::clock::is_pair(s, i, low, high),
    ensures
        '0' <= s[i] <= '9' && '0' <= s[i + 1] <= '9',
        10 * (s[i] as int - '0' as int) <= high,
{
    let pair = s.subrange(i, i + 2);
    reveal_with_fuel(crate::text::decimal, 3);
    assert(pair.drop_last() =~= seq![s[i]]);
    assert(seq![s[i]].drop_last() =~= seq![]);
    assert(pair.last() == s[i + 1]);
    assert(crate::text::decimal(seq![s[i]]) == s[i] as int - '0' as int);
}

} // verus!
