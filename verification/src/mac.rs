//! MAC addresses of wireless devices: reading them from text, and writing the device id.

use vstd::prelude::*;

verus! {

/// What a hexadecimal digit is worth, in either case.
pub open spec fn hex_digit(c: char) -> Option<nat> {
    if '0' <= c <= '9' {
        Some((c as int - '0' as int) as nat)
    } else if 'a' <= c <= 'f' {
        Some((c as int - 'a' as int + 10) as nat)
    } else if 'A' <= c <= 'F' {
        Some((c as int - 'A' as int + 10) as nat)
    } else {
        None
    }
}

/// The number that a run of hexadecimal digits writes, where every character is one.
pub open spec fn hex_number(digits: Seq<char>) -> Option<nat>
    decreases digits.len(),
{
    if digits.len() == 0 {
        Some(0)
    } else {
        match (hex_number(digits.drop_last()), hex_digit(digits.last())) {
            (Some(high), Some(low)) => Some(high * 16 + low),
            _ => None,
        }
    }
}

/// `text` without one leading plus sign.
pub open spec fn without_plus(text: Seq<char>) -> Seq<char> {
    if text.len() > 0 && text[0] == '+' {
        text.skip(1)
    } else {
        text
    }
}

/// The byte that `text` writes: one or more hexadecimal digits after an optional plus sign, worth
/// at most 255 together.
pub open spec fn hex_byte(text: Seq<char>) -> Option<u8> {
    let digits = without_plus(text);
    match hex_number(digits) {
        Some(n) if digits.len() > 0 && n <= 255 => Some(n as u8),
        _ => None,
    }
}

/// The pieces of `text` between its colons.
pub open spec fn split_colons(text: Seq<char>) -> Seq<Seq<char>>
    decreases text.len(),
{
    if text.len() == 0 {
        seq![Seq::empty()]
    } else {
        let before = split_colons(text.drop_last());
        if text.last() == ':' {
            before.push(Seq::empty())
        } else {
            before.drop_last().push(before.last().push(text.last()))
        }
    }
}

/// The pieces written one after the other, with a colon between neighbours.
pub open spec fn join_colons(parts: Seq<Seq<char>>) -> Seq<char>
    decreases parts.len(),
{
    if parts.len() == 0 {
        Seq::empty()
    } else if parts.len() == 1 {
        parts[0]
    } else {
        join_colons(parts.drop_last()).push(':') + parts.last()
    }
}

/// Whether `text` is exactly six bytes in hexadecimal with colons between them, and which.
pub open spec fn spells_mac(text: Seq<char>, mac: Seq<u8>) -> bool {
    let parts = split_colons(text);
    &&& parts.len() == 6
    &&& mac.len() == 6
    &&& forall|i: int| 0 <= i < 6 ==> hex_byte(#[trigger] parts[i]) == Some(mac[i])
}

proof fn lemma_split_not_empty(text: Seq<char>)
    ensures
        split_colons(text).len() >= 1,
    decreases text.len(),
{
    if text.len() > 0 {
        lemma_split_not_empty(text.drop_last());
    }
}

fn split_text(text: &str) -> (parts: Vec<Vec<char>>)
    ensures
        parts@.len() == split_colons(text@).len(),
        forall|i: int| 0 <= i < parts@.len() ==> (#[trigger] parts@[i])@ == split_colons(text@)[i],
{
    let mut done: Vec<Vec<char>> = Vec::new();
    let mut current: Vec<char> = Vec::new();
    assert(text@.take(0) =~= Seq::empty());
    assert(split_colons(text@.take(0)).drop_last() =~= Seq::empty());
    for c in it: text.chars()
        invariant
            it.seq() == text@,
            split_colons(text@.take(it.index())).len() == done@.len() + 1,
            current@ == split_colons(text@.take(it.index())).last(),
            forall|i: int|
                0 <= i < done@.len() ==> (#[trigger] done@[i])@ == split_colons(
                    text@.take(it.index()),
                )[i],
    {
        proof {
            let n = it.index();
            assert(text@.take(n + 1).drop_last() =~= text@.take(n));
            assert(text@.take(n + 1).last() == c);
        }
        if c == ':' {
            done.push(current);
            current = Vec::new();
        } else {
            current.push(c);
        }
    }
    assert(text@.take(text@.len() as int) =~= text@);
    done.push(current);
    done
}

/// A prefix of a hexadecimal number is one too, and not worth more.
proof fn lemma_hex_prefix(digits: Seq<char>, n: int)
    requires
        0 <= n <= digits.len(),
    ensures
        hex_number(digits) is Some ==> hex_number(digits.take(n)) is Some && hex_number(
            digits.take(n),
        )->0 <= hex_number(digits)->0,
    decreases digits.len(),
{
    if n == digits.len() {
        assert(digits.take(n) =~= digits);
    } else {
        lemma_hex_prefix(digits.drop_last(), n);
        assert(digits.drop_last().take(n) =~= digits.take(n));
    }
}

fn digit_value(c: char) -> (value: Option<u32>)
    ensures
        value is Some <==> hex_digit(c) is Some,
        value matches Some(v) ==> v == hex_digit(c)->0 && v < 16,
{
    let code: u32 = c as u32;
    if 48 <= code && code <= 57 {
        Some(code - 48)
    } else if 97 <= code && code <= 102 {
        Some(code - 87)
    } else if 65 <= code && code <= 70 {
        Some(code - 55)
    } else {
        None
    }
}

fn read_hex_byte(text: &Vec<char>) -> (byte: Option<u8>)
    ensures
        byte == hex_byte(text@),
{
    let start: usize = if text.len() > 0 && text[0] == '+' {
        1
    } else {
        0
    };
    let ghost digits = without_plus(text@);
    assert(digits =~= text@.skip(start as int));
    if start == text.len() {
        return None;
    }
    let mut value: u32 = 0;
    let mut i: usize = start;
    assert(digits.take(0) =~= Seq::empty());
    while i < text.len()
        invariant
            start <= i <= text.len(),
            start < text.len(),
            digits == without_plus(text@),
            digits =~= text@.skip(start as int),
            hex_number(digits.take(i - start)) == Some(value as nat),
            value <= 255,
        decreases text.len() - i,
    {
        proof {
            lemma_hex_prefix(digits, i - start + 1);
            assert(digits.take(i - start + 1).drop_last() =~= digits.take(i - start));
            assert(digits.take(i - start + 1).last() == text@[i as int]);
        }
        match digit_value(text[i]) {
            Some(digit) => {
                value = value * 16 + digit;
                if value > 255 {
                    return None;
                }
            },
            None => {
                return None;
            },
        }
        i = i + 1;
    }
    assert(digits.take(digits.len() as int) =~= digits);
    Some(value as u8)
}

/// The address that `text` spells, if it spells one.
pub open spec fn mac_of(text: Seq<char>) -> Option<[u8; 6]> {
    if exists|mac: [u8; 6]| spells_mac(text, #[trigger] mac@) {
        Some(choose|mac: [u8; 6]| spells_mac(text, #[trigger] mac@))
    } else {
        None
    }
}

/// A text spells at most one address.
pub proof fn lemma_spelling_is_unique(text: Seq<char>, mac: [u8; 6])
    requires
        spells_mac(text, mac@),
    ensures
        mac_of(text) == Some(mac),
{
    let chosen = mac_of(text)->0;
    assert(spells_mac(text, chosen@));
    assert forall|i: int| 0 <= i < 6 implies chosen[i] == mac[i] by {
        assert(hex_byte(split_colons(text)[i]) == Some(mac@[i]));
        assert(hex_byte(split_colons(text)[i]) == Some(chosen@[i]));
    }
    assert(chosen =~= mac);
}

/// Parse a colon-separated MAC address such as `"01:23:45:67:89:AB"`. Returns `None` on malformed
/// input.
pub fn parse_mac_str(s: &str) -> (mac: Option<[u8; 6]>)
    ensures
        mac == mac_of(s@),
        mac matches Some(bytes) ==> spells_mac(s@, bytes@),
        mac is None ==> forall|bytes: Seq<u8>| !spells_mac(s@, bytes),
{
    let parts = split_text(s);
    if parts.len() != 6 {
        return None;
    }
    let mut mac: [u8; 6] = [0u8; 6];
    let mut i: usize = 0;
    while i < 6
        invariant
            i <= 6,
            parts@.len() == 6,
            split_colons(s@).len() == 6,
            forall|j: int| 0 <= j < 6 ==> (#[trigger] parts@[j])@ == split_colons(s@)[j],
            forall|j: int| 0 <= j < i ==> hex_byte(#[trigger] split_colons(s@)[j]) == Some(mac@[j]),
        decreases 6 - i,
    {
        match read_hex_byte(&parts[i]) {
            Some(byte) => {
                mac[i] = byte;
            },
            None => {
                proof {
                    assert forall|bytes: Seq<u8>| !spells_mac(s@, bytes) by {
                        assert(hex_byte(split_colons(s@)[i as int]) is None);
                    }
                }
                return None;
            },
        }
        i = i + 1;
    }
    proof {
        lemma_spelling_is_unique(s@, mac);
    }
    Some(mac)
}

/// The lower-case digit for a value below sixteen.
pub open spec fn hex_char(n: int) -> char {
    if n < 10 {
        ('0' as int + n) as char
    } else {
        ('a' as int + n - 10) as char
    }
}

/// A byte as two lower-case hexadecimal digits.
pub open spec fn byte_text(byte: u8) -> Seq<char> {
    seq![hex_char(byte as int / 16), hex_char(byte as int % 16)]
}

/// An address as six lower-case bytes with colons between them.
pub open spec fn mac_text(mac: Seq<u8>) -> Seq<char> {
    join_colons(mac.map_values(|byte: u8| byte_text(byte)))
}

/// The id under which a wireless device appears in the configuration.
pub open spec fn device_id_text(mac: Seq<u8>) -> Seq<char> {
    "wireless:"@ + mac_text(mac)
}

fn digit_text(n: u8) -> (text: &'static str)
    requires
        n < 16,
    ensures
        text@ == seq![hex_char(n as int)],
{
    proof {
        reveal_strlit("0");
        reveal_strlit("1");
        reveal_strlit("2");
        reveal_strlit("3");
        reveal_strlit("4");
        reveal_strlit("5");
        reveal_strlit("6");
        reveal_strlit("7");
        reveal_strlit("8");
        reveal_strlit("9");
        reveal_strlit("a");
        reveal_strlit("b");
        reveal_strlit("c");
        reveal_strlit("d");
        reveal_strlit("e");
        reveal_strlit("f");
    }
    match n {
        0 => "0",
        1 => "1",
        2 => "2",
        3 => "3",
        4 => "4",
        5 => "5",
        6 => "6",
        7 => "7",
        8 => "8",
        9 => "9",
        10 => "a",
        11 => "b",
        12 => "c",
        13 => "d",
        14 => "e",
        _ => "f",
    }
}

/// The id under which the wireless device with address `mac` appears in the configuration, such
/// as `"wireless:01:23:45:67:89:ab"`.
pub fn wireless_device_id(mac: &[u8; 6]) -> (id: String)
    ensures
        id@ == device_id_text(mac@),
{
    let mut id = "wireless:".to_string();
    let ghost parts = mac@.map_values(|byte: u8| byte_text(byte));
    let mut i: usize = 0;
    assert(parts.take(0) =~= Seq::empty());
    assert("wireless:"@ + join_colons(parts.take(0)) =~= id@);
    while i < 6
        invariant
            i <= 6,
            parts == mac@.map_values(|byte: u8| byte_text(byte)),
            id@ == "wireless:"@ + join_colons(parts.take(i as int)),
        decreases 6 - i,
    {
        let byte: u8 = mac[i];
        proof {
            reveal_strlit(":");
            assert(parts.take(i + 1).drop_last() =~= parts.take(i as int));
            assert(parts.take(i + 1).last() == byte_text(byte));
        }
        let ghost before = id@;
        if i > 0 {
            id.append(":");
        }
        id.append(digit_text(byte / 16));
        id.append(digit_text(byte % 16));
        proof {
            let now = "wireless:"@ + join_colons(parts.take(i + 1));
            if i == 0 {
                assert(join_colons(parts.take(0)) =~= Seq::empty());
                assert(join_colons(parts.take(1)) == parts.take(1)[0]);
                assert(id@ =~= now);
            } else {
                assert(id@ =~= now);
            }
        }
        i = i + 1;
    }
    assert(parts.take(6) =~= parts);
    id
}

/// Whether no colon occurs in `text`.
pub open spec fn colon_free(text: Seq<char>) -> bool {
    !text.contains(':')
}

/// Appending a colon-free text lengthens the last piece and leaves the others.
proof fn lemma_split_append(front: Seq<char>, tail: Seq<char>)
    requires
        colon_free(tail),
    ensures
        split_colons(front + tail) == split_colons(front).drop_last().push(
            split_colons(front).last() + tail,
        ),
    decreases tail.len(),
{
    lemma_split_not_empty(front);
    let parts = split_colons(front);
    if tail.len() == 0 {
        assert(front + tail =~= front);
        assert(parts.last() + tail =~= parts.last());
        assert(parts =~= parts.drop_last().push(parts.last()));
    } else {
        let shorter = tail.drop_last();
        assert(forall|i: int| 0 <= i < shorter.len() ==> shorter[i] == tail[i]);
        lemma_split_append(front, shorter);
        assert((front + tail).drop_last() =~= front + shorter);
        assert(tail.last() != ':' && (front + tail).last() == tail.last());
        let before = split_colons(front + shorter);
        assert(before.drop_last() =~= parts.drop_last());
        assert((parts.last() + shorter).push(tail.last()) =~= parts.last() + tail);
    }
}

/// Splitting at the colons undoes joining with colons, where no piece holds a colon itself.
pub proof fn law_split_undoes_join(parts: Seq<Seq<char>>)
    requires
        parts.len() > 0,
        forall|i: int| 0 <= i < parts.len() ==> colon_free(#[trigger] parts[i]),
    ensures
        split_colons(join_colons(parts)) == parts,
    decreases parts.len(),
{
    if parts.len() == 1 {
        assert(Seq::<char>::empty() + parts[0] =~= parts[0]);
        lemma_split_append(Seq::empty(), parts[0]);
        assert(split_colons(Seq::empty()) =~= seq![Seq::<char>::empty()]);
        assert(split_colons(parts[0]) =~= parts);
    } else {
        let front = parts.drop_last();
        law_split_undoes_join(front);
        let text = join_colons(front).push(':');
        assert(text.drop_last() =~= join_colons(front));
        assert(split_colons(text) == front.push(Seq::empty()));
        lemma_split_append(text, parts.last());
        assert(front.push(Seq::empty()).drop_last() =~= front);
        assert(Seq::<char>::empty() + parts.last() =~= parts.last());
        assert(front.push(parts.last()) =~= parts);
    }
}

/// Joining with colons undoes splitting at the colons, for every text.
pub proof fn law_join_undoes_split(text: Seq<char>)
    ensures
        join_colons(split_colons(text)) == text,
    decreases text.len(),
{
    lemma_split_not_empty(text);
    if text.len() == 0 {
        assert(join_colons(split_colons(text)) =~= text);
    } else {
        let front = text.drop_last();
        law_join_undoes_split(front);
        lemma_split_not_empty(front);
        let before = split_colons(front);
        let parts = split_colons(text);
        if text.last() == ':' {
            assert(parts.drop_last() =~= before);
            assert(join_colons(parts) =~= text);
        } else {
            assert(parts.drop_last() =~= before.drop_last());
            assert(join_colons(parts) =~= join_colons(before).push(text.last()));
            assert(join_colons(parts) =~= text);
        }
    }
}

/// A text spells an address exactly when it is six pieces joined with colons, each of which writes
/// one byte of the address.
pub proof fn law_spelling_is_six_joined_bytes(text: Seq<char>, mac: Seq<u8>)
    ensures
        spells_mac(text, mac) <==> mac.len() == 6 && exists|parts: Seq<Seq<char>>|
            #![trigger join_colons(parts)]
            parts.len() == 6 && text == join_colons(parts) && forall|i: int|
                0 <= i < 6 ==> hex_byte(#[trigger] parts[i]) == Some(mac[i]),
{
    if spells_mac(text, mac) {
        law_join_undoes_split(text);
        let parts = split_colons(text);
        assert(text == join_colons(parts));
    }
    if mac.len() == 6 && exists|parts: Seq<Seq<char>>|
        #![trigger join_colons(parts)]
        parts.len() == 6 && text == join_colons(parts) && forall|i: int|
            0 <= i < 6 ==> hex_byte(#[trigger] parts[i]) == Some(mac[i]) {
        let parts = choose|parts: Seq<Seq<char>>|
            #![trigger join_colons(parts)]
            parts.len() == 6 && text == join_colons(parts) && forall|i: int|
                0 <= i < 6 ==> hex_byte(#[trigger] parts[i]) == Some(mac[i]);
        assert forall|i: int| 0 <= i < parts.len() implies colon_free(#[trigger] parts[i]) by {
            lemma_hex_byte_colon_free(parts[i]);
        }
        law_split_undoes_join(parts);
    }
}

proof fn lemma_hex_number_colon_free(digits: Seq<char>)
    requires
        hex_number(digits) is Some,
    ensures
        colon_free(digits),
    decreases digits.len(),
{
    if digits.len() > 0 {
        let front = digits.drop_last();
        lemma_hex_number_colon_free(front);
        assert forall|i: int| 0 <= i < digits.len() implies digits[i] != ':' by {
            if i < front.len() {
                assert(front[i] == digits[i]);
                assert(front.contains(front[i]));
            }
        }
    }
}

proof fn lemma_hex_byte_colon_free(text: Seq<char>)
    requires
        hex_byte(text) is Some,
    ensures
        colon_free(text),
{
    let digits = without_plus(text);
    lemma_hex_number_colon_free(digits);
    if text.len() > 0 && text[0] == '+' {
        assert forall|i: int| 0 <= i < text.len() implies text[i] != ':' by {
            if i > 0 {
                assert(digits[i - 1] == text[i]);
                assert(digits.contains(digits[i - 1]));
            }
        }
    }
}

proof fn lemma_byte_text_is_read_back(byte: u8)
    ensures
        hex_byte(byte_text(byte)) == Some(byte),
{
    let text = byte_text(byte);
    let high = byte as int / 16;
    let low = byte as int % 16;
    assert(hex_digit(hex_char(high)) == Some(high as nat));
    assert(hex_digit(hex_char(low)) == Some(low as nat));
    assert(without_plus(text) =~= text);
    let first = text.drop_last();
    assert(first.len() == 1 && first.last() == hex_char(high));
    assert(first.drop_last() =~= Seq::empty());
    assert(hex_number(first.drop_last()) == Some(0nat));
    assert(hex_number(first) == Some(high as nat));
    assert(hex_number(text) == Some((high * 16 + low) as nat));
}

/// Reading back the text of an address gives the address.
pub proof fn law_written_address_is_read_back(mac: [u8; 6])
    ensures
        mac_of(mac_text(mac@)) == Some(mac),
{
    let parts = mac@.map_values(|byte: u8| byte_text(byte));
    assert forall|i: int| 0 <= i < 6 implies hex_byte(#[trigger] parts[i]) == Some(mac@[i]) by {
        lemma_byte_text_is_read_back(mac@[i]);
    }
    law_spelling_is_six_joined_bytes(mac_text(mac@), mac@);
    lemma_spelling_is_unique(mac_text(mac@), mac);
}

/// Two wireless devices with different addresses have different ids.
pub proof fn law_device_ids_are_distinct(a: [u8; 6], b: [u8; 6])
    requires
        device_id_text(a@) == device_id_text(b@),
    ensures
        a == b,
{
    let prefix = "wireless:"@;
    assert(mac_text(a@) =~= device_id_text(a@).skip(prefix.len() as int));
    assert(mac_text(b@) =~= device_id_text(b@).skip(prefix.len() as int));
    law_written_address_is_read_back(a);
    law_written_address_is_read_back(b);
}

/// The character in upper case.
pub open spec fn upper(c: char) -> char {
    if 'a' <= c <= 'z' {
        (c as int - 'a' as int + 'A' as int) as char
    } else {
        c
    }
}

/// The text in upper case.
pub open spec fn upper_text(text: Seq<char>) -> Seq<char> {
    text.map_values(|c: char| upper(c))
}

proof fn lemma_upper_splits_alike(text: Seq<char>)
    ensures
        split_colons(upper_text(text)).len() == split_colons(text).len(),
        forall|i: int|
            0 <= i < split_colons(text).len() ==> #[trigger] split_colons(upper_text(text))[i]
                == upper_text(split_colons(text)[i]),
    decreases text.len(),
{
    lemma_split_not_empty(text);
    if text.len() == 0 {
        assert(upper_text(text) =~= text);
        assert(upper_text(Seq::<char>::empty()) =~= Seq::<char>::empty());
    } else {
        let front = text.drop_last();
        lemma_upper_splits_alike(front);
        lemma_split_not_empty(front);
        assert(upper_text(text).drop_last() =~= upper_text(front));
        assert(upper_text(Seq::<char>::empty()) =~= Seq::<char>::empty());
        let last = split_colons(front).last();
        assert(upper_text(last.push(text.last())) =~= upper_text(last).push(upper(text.last())));
        assert(split_colons(upper_text(front)).last() == upper_text(last)) by {
            assert(split_colons(upper_text(front))[split_colons(front).len() - 1] == upper_text(
                last,
            ));
        }
    }
}

proof fn lemma_upper_number_is_the_same(digits: Seq<char>)
    ensures
        hex_number(upper_text(digits)) == hex_number(digits),
    decreases digits.len(),
{
    if digits.len() > 0 {
        lemma_upper_number_is_the_same(digits.drop_last());
        assert(upper_text(digits).drop_last() =~= upper_text(digits.drop_last()));
    }
}

proof fn lemma_upper_spells_the_same(text: Seq<char>, mac: Seq<u8>)
    ensures
        spells_mac(upper_text(text), mac) == spells_mac(text, mac),
{
    lemma_upper_splits_alike(text);
    let parts = split_colons(text);
    let raised = split_colons(upper_text(text));
    assert forall|i: int| 0 <= i < parts.len() implies #[trigger] hex_byte(raised[i]) == hex_byte(
        parts[i],
    ) by {
        assert(raised[i] == upper_text(parts[i]));
        assert(without_plus(upper_text(parts[i])) =~= upper_text(without_plus(parts[i])));
        lemma_upper_number_is_the_same(without_plus(parts[i]));
    }
    if spells_mac(text, mac) {
        assert forall|i: int| 0 <= i < 6 implies hex_byte(#[trigger] raised[i]) == Some(mac[i]) by {
            assert(hex_byte(parts[i]) == Some(mac[i]));
        }
    }
    if spells_mac(upper_text(text), mac) {
        assert forall|i: int| 0 <= i < 6 implies hex_byte(#[trigger] parts[i]) == Some(mac[i]) by {
            assert(hex_byte(raised[i]) == Some(mac[i]));
        }
    }
}

proof fn lemma_upper_is_read_the_same(text: Seq<char>)
    ensures
        mac_of(upper_text(text)) == mac_of(text),
{
    if let Some(mac) = mac_of(text) {
        lemma_upper_spells_the_same(text, mac@);
        lemma_spelling_is_unique(upper_text(text), mac);
    } else if let Some(mac) = mac_of(upper_text(text)) {
        lemma_upper_spells_the_same(text, mac@);
    }
}

/// The case of letters does not matter: two texts that differ in it alone spell the same address,
/// or neither spells one.
pub proof fn law_case_does_not_matter(a: Seq<char>, b: Seq<char>)
    requires
        upper_text(a) == upper_text(b),
    ensures
        mac_of(a) == mac_of(b),
{
    lemma_upper_is_read_the_same(a);
    lemma_upper_is_read_the_same(b);
}

/// The sixteen digits in lower case.
pub open spec fn digit(n: int) -> char {
    "0123456789abcdef"@[n]
}

/// Whether the character writes that digit, in either case.
pub open spec fn writes_digit(c: char, n: int) -> bool {
    c == digit(n) || c == upper(digit(n))
}

proof fn lemma_digit_is_worth(c: char, n: int)
    requires
        0 <= n < 16,
    ensures
        writes_digit(c, n) <==> hex_digit(c) == Some(n as nat),
{
    reveal_strlit("0123456789abcdef");
}

proof fn lemma_zero_is_all_zeros(digits: Seq<char>)
    ensures
        hex_number(digits) == Some(0nat) <==> forall|i: int|
            0 <= i < digits.len() ==> #[trigger] digits[i] == '0',
    decreases digits.len(),
{
    if digits.len() > 0 {
        let front = digits.drop_last();
        lemma_zero_is_all_zeros(front);
        assert(forall|i: int| 0 <= i < front.len() ==> front[i] == digits[i]);
        lemma_digit_is_worth(digits.last(), 0);
        reveal_strlit("0123456789abcdef");
        if hex_number(digits) == Some(0nat) {
            assert forall|i: int| 0 <= i < digits.len() implies #[trigger] digits[i] == '0' by {
                if i < front.len() {
                    assert(front[i] == '0');
                }
            }
        }
        if forall|i: int| 0 <= i < digits.len() ==> #[trigger] digits[i] == '0' {
            assert forall|i: int| 0 <= i < front.len() implies #[trigger] front[i] == '0' by {
                assert(digits[i] == '0');
            }
            assert(digits[digits.len() - 1] == '0');
        }
    }
}

/// Whether the text from `start` on is zeros, if any, followed by that number as one or two digits
/// without a leading zero.
pub open spec fn writes_byte_from(text: Seq<char>, start: int, byte: u8) -> bool {
    let last = text.len() - 1;
    if byte < 16 {
        &&& start <= last
        &&& writes_digit(text[last], byte as int)
        &&& forall|i: int| start <= i < last ==> #[trigger] text[i] == '0'
    } else {
        &&& start <= last - 1
        &&& writes_digit(text[last], byte as int % 16)
        &&& writes_digit(text[last - 1], byte as int / 16)
        &&& forall|i: int| start <= i < last - 1 ==> #[trigger] text[i] == '0'
    }
}

proof fn lemma_small_number(digits: Seq<char>, n: nat)
    requires
        n < 16,
        digits.len() > 0,
    ensures
        hex_number(digits) == Some(n) <==> writes_byte_from(digits, 0, n as u8),
{
    let front = digits.drop_last();
    lemma_zero_is_all_zeros(front);
    lemma_digit_is_worth(digits.last(), n as int);
    assert(forall|i: int| 0 <= i < front.len() ==> front[i] == digits[i]);
    if writes_byte_from(digits, 0, n as u8) {
        assert forall|i: int| 0 <= i < front.len() implies #[trigger] front[i] == '0' by {
            assert(digits[i] == '0');
        }
    }
    if hex_number(digits) == Some(n) {
        assert(hex_number(front) == Some(0nat));
        assert forall|i: int| 0 <= i < digits.len() - 1 implies #[trigger] digits[i] == '0' by {
            assert(front[i] == '0');
        }
    }
}

proof fn lemma_byte_number(digits: Seq<char>, byte: u8)
    requires
        digits.len() > 0,
    ensures
        hex_number(digits) == Some(byte as nat) <==> writes_byte_from(digits, 0, byte),
{
    if byte < 16 {
        lemma_small_number(digits, byte as nat);
    } else {
        let front = digits.drop_last();
        let high = byte as int / 16;
        let low = byte as int % 16;
        assert(byte as int == high * 16 + low);
        lemma_digit_is_worth(digits.last(), low);
        if front.len() > 0 {
            lemma_small_number(front, high as nat);
            assert(front[front.len() - 1] == digits[digits.len() - 2]);
            assert(forall|i: int| 0 <= i < front.len() ==> front[i] == digits[i]);
            if writes_byte_from(digits, 0, byte) {
                assert forall|i: int| 0 <= i < front.len() - 1 implies #[trigger] front[i]
                    == '0' by {
                    assert(digits[i] == '0');
                }
                lemma_digit_is_worth(front.last(), high);
                assert(writes_byte_from(front, 0, high as u8));
            }
            if hex_number(digits) == Some(byte as nat) {
                assert(hex_number(front) == Some(high as nat));
                assert(writes_byte_from(front, 0, high as u8));
                assert forall|i: int| 0 <= i < digits.len() - 2 implies #[trigger] digits[i]
                    == '0' by {
                    assert(front[i] == '0');
                }
            }
        }
    }
}

/// A piece writes a byte exactly where it is, after one plus sign or none, the byte in one or two
/// hexadecimal digits of either case, with any number of zeros in front. Everything else is
/// refused: a sign alone or another sign, any other character, and any number above 255.
pub proof fn law_piece_writes_a_byte(text: Seq<char>, byte: u8)
    ensures
        hex_byte(text) == Some(byte) <==> writes_byte_from(
            text,
            if text.len() > 0 && text[0] == '+' {
                1
            } else {
                0
            },
            byte,
        ),
{
    let plus = text.len() > 0 && text[0] == '+';
    let digits = if plus {
        text.skip(1)
    } else {
        text
    };
    let start: int = if plus {
        1
    } else {
        0
    };
    if digits.len() > 0 {
        lemma_byte_number(digits, byte);
        assert(digits[digits.len() - 1] == text[text.len() - 1]);
        if digits.len() > 1 {
            assert(digits[digits.len() - 2] == text[text.len() - 2]);
        }
        if writes_byte_from(text, start, byte) {
            assert forall|i: int|
                0 <= i < digits.len() - (if byte < 16 {
                    1int
                } else {
                    2int
                }) implies #[trigger] digits[i] == '0' by {
                assert(text[i + start] == '0');
            }
        }
        if writes_byte_from(digits, 0, byte) {
            assert forall|i: int|
                start <= i < text.len() - (if byte < 16 {
                    1int
                } else {
                    2int
                }) implies #[trigger] text[i] == '0' by {
                assert(digits[i - start] == '0');
            }
        }
    }
}

/// The id of a wireless device is spelled out in full: the word, and the six bytes as two
/// lower-case digits each, with colons between them.
pub proof fn law_device_id_is_spelled_out(mac: [u8; 6])
    ensures
        device_id_text(mac@).len() == 26,
        device_id_text(mac@).take(9) == "wireless:"@,
        forall|i: int|
            0 <= i < 6 ==> {
                &&& device_id_text(mac@)[9 + 3 * i] == digit(#[trigger] mac@[i] as int / 16)
                &&& device_id_text(mac@)[10 + 3 * i] == digit(mac@[i] as int % 16)
                &&& i < 5 ==> device_id_text(mac@)[11 + 3 * i] == ':'
            },
{
    reveal_strlit("wireless:");
    reveal_strlit("0123456789abcdef");
    let parts = mac@.map_values(|byte: u8| byte_text(byte));
    let p5 = parts.drop_last();
    let p4 = p5.drop_last();
    let p3 = p4.drop_last();
    let p2 = p3.drop_last();
    let p1 = p2.drop_last();
    assert(join_colons(p1) == byte_text(mac@[0]));
    assert(join_colons(p2) == byte_text(mac@[0]).push(':') + byte_text(mac@[1]));
    assert(join_colons(p3) == join_colons(p2).push(':') + byte_text(mac@[2]));
    assert(join_colons(p4) == join_colons(p3).push(':') + byte_text(mac@[3]));
    assert(join_colons(p5) == join_colons(p4).push(':') + byte_text(mac@[4]));
    assert(join_colons(parts) == join_colons(p5).push(':') + byte_text(mac@[5]));
    let id = device_id_text(mac@);
    assert(id.take(9) =~= "wireless:"@);
    assert forall|i: int| 0 <= i < 6 implies {
        &&& id[9 + 3 * i] == digit(#[trigger] mac@[i] as int / 16)
        &&& id[10 + 3 * i] == digit(mac@[i] as int % 16)
        &&& i < 5 ==> id[11 + 3 * i] == ':'
    } by {
        assert(i == 0 || i == 1 || i == 2 || i == 3 || i == 4 || i == 5);
    }
}

} // verus!
