use vstd::prelude::*;

verus! {

/// The symbol that a set-1 (QWERTY) scan code stands for, if any.
pub open spec fn scancode_symbol(code: u8) -> Option<char> {
    if code == 0x02 { Some('1') }
    else if code == 0x03 { Some('2') }
    else if code == 0x04 { Some('3') }
    else if code == 0x05 { Some('4') }
    else if code == 0x06 { Some('5') }
    else if code == 0x07 { Some('6') }
    else if code == 0x08 { Some('7') }
    else if code == 0x09 { Some('8') }
    else if code == 0x0A { Some('9') }
    else if code == 0x0B { Some('0') }
    else if code == 0x10 { Some('q') }
    else if code == 0x11 { Some('w') }
    else if code == 0x12 { Some('e') }
    else if code == 0x13 { Some('r') }
    else if code == 0x14 { Some('t') }
    else if code == 0x15 { Some('y') }
    else if code == 0x16 { Some('u') }
    else if code == 0x17 { Some('i') }
    else if code == 0x18 { Some('o') }
    else if code == 0x19 { Some('p') }
    else if code == 0x1E { Some('a') }
    else if code == 0x1F { Some('s') }
    else if code == 0x20 { Some('d') }
    else if code == 0x21 { Some('f') }
    else if code == 0x22 { Some('g') }
    else if code == 0x23 { Some('h') }
    else if code == 0x24 { Some('j') }
    else if code == 0x25 { Some('k') }
    else if code == 0x26 { Some('l') }
    else if code == 0x2C { Some('z') }
    else if code == 0x2D { Some('x') }
    else if code == 0x2E { Some('c') }
    else if code == 0x2F { Some('v') }
    else if code == 0x30 { Some('b') }
    else if code == 0x31 { Some('n') }
    else if code == 0x32 { Some('m') }
    else if code == 0x39 { Some(' ') }
    else if code == 0x1C { Some('\n') }
    else { None }
}

/// Maps a raw scan code to its symbol; an unmapped code is `Err(())`.
pub fn decode_scancode(scancode: u8) -> (r: Result<char, ()>)
    ensures
        match scancode_symbol(scancode) {
            Some(c) => r is Ok && r->Ok_0 == c,
            None => r is Err,
        },
{
    let c = match scancode {
        0x02 => '1',
        0x03 => '2',
        0x04 => '3',
        0x05 => '4',
        0x06 => '5',
        0x07 => '6',
        0x08 => '7',
        0x09 => '8',
        0x0A => '9',
        0x0B => '0',
        0x10 => 'q',
        0x11 => 'w',
        0x12 => 'e',
        0x13 => 'r',
        0x14 => 't',
        0x15 => 'y',
        0x16 => 'u',
        0x17 => 'i',
        0x18 => 'o',
        0x19 => 'p',
        0x1E => 'a',
        0x1F => 's',
        0x20 => 'd',
        0x21 => 'f',
        0x22 => 'g',
        0x23 => 'h',
        0x24 => 'j',
        0x25 => 'k',
        0x26 => 'l',
        0x2C => 'z',
        0x2D => 'x',
        0x2E => 'c',
        0x2F => 'v',
        0x30 => 'b',
        0x31 => 'n',
        0x32 => 'm',
        0x39 => ' ',
        0x1C => '\n',
        _ => return Err(()),
    };
    Ok(c)
}

/// The decimal digit character for a value below ten.
pub open spec fn digit_char(d: nat) -> char {
    if d == 0 { '0' }
    else if d == 1 { '1' }
    else if d == 2 { '2' }
    else if d == 3 { '3' }
    else if d == 4 { '4' }
    else if d == 5 { '5' }
    else if d == 6 { '6' }
    else if d == 7 { '7' }
    else if d == 8 { '8' }
    else { '9' }
}

/// The decimal spelling of `n`, without leading zeros.
pub open spec fn decimal(n: nat) -> Seq<char>
    decreases n,
{
    if n < 10 {
        seq![digit_char(n)]
    } else {
        decimal(n / 10).push(digit_char(n % 10))
    }
}

/// What the keypress task prints for one scan code: its symbol, or else the
/// code's decimal value.
pub open spec fn keypress_text(code: u8) -> Seq<char> {
    match scancode_symbol(code) {
        Some(c) => seq![c],
        None => decimal(code as nat),
    }
}

/// What the keypress task prints for a run of scan codes, in order.
pub open spec fn keypresses_text(codes: Seq<u8>) -> Seq<char>
    decreases codes.len(),
{
    if codes.len() == 0 {
        Seq::empty()
    } else {
        keypresses_text(codes.drop_last()) + keypress_text(codes.last())
    }
}

fn digit(d: u8) -> (c: char)
    requires
        d < 10,
    ensures
        c == digit_char(d as nat),
{
    match d {
        0 => '0',
        1 => '1',
        2 => '2',
        3 => '3',
        4 => '4',
        5 => '5',
        6 => '6',
        7 => '7',
        8 => '8',
        _ => '9',
    }
}

/// Appends the decimal spelling of `n` to `out`.
fn push_decimal(out: &mut Vec<char>, n: u8)
    ensures
        final(out)@ == old(out)@ + decimal(n as nat),
{
    if n >= 100 {
        out.push(digit(n / 100));
        out.push(digit((n / 10) % 10));
        out.push(digit(n % 10));
        assert(decimal(n as nat) =~= seq![
            digit_char((n / 100) as nat),
            digit_char(((n / 10) % 10) as nat),
            digit_char((n % 10) as nat),
        ]) by {
            assert(decimal((n / 10) as nat) == decimal(((n / 10) / 10) as nat).push(
                digit_char(((n / 10) % 10) as nat),
            ));
        }
    } else if n >= 10 {
        out.push(digit(n / 10));
        out.push(digit(n % 10));
        assert(decimal((n / 10) as nat) == seq![digit_char((n / 10) as nat)]);
        assert(decimal(n as nat) =~= seq![digit_char((n / 10) as nat), digit_char((n % 10) as nat)]);
    } else {
        out.push(digit(n));
    }
}

/// Appends what the keypress task prints for `code` to `out`: the decoded
/// symbol, or the code in decimal where it has none.
pub fn push_keypress(out: &mut Vec<char>, code: u8)
    ensures
        final(out)@ == old(out)@ + keypress_text(code),
{
    match decode_scancode(code) {
        Ok(c) => {
            out.push(c);
        },
        Err(()) => {
            push_decimal(out, code);
        },
    }
}

/// The text that the keypress task prints for `codes`, taken in order.
pub fn render_keypresses(codes: &Vec<u8>) -> (r: Vec<char>)
    ensures
        r@ == keypresses_text(codes@),
{
    let mut out: Vec<char> = Vec::new();
    let mut i: usize = 0;
    while i < codes.len()
        invariant
            i <= codes@.len(),
            out@ == keypresses_text(codes@.take(i as int)),
        decreases codes@.len() - i,
    {
        push_keypress(&mut out, codes[i]);
        assert(codes@.take(i as int + 1).drop_last() =~= codes@.take(i as int));
        i = i + 1;
    }
    assert(codes@.take(codes@.len() as int) =~= codes@);
    out
}

} // verus!
