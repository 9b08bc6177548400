//! What Clam says to the user, and how text is handed to the shell and the
//! registry: decimal numbers, notifications, tooltips, and UTF-16.
use vstd::prelude::*;

verus! {

// ---------------------------------------------------------------------------
// Decimal numbers
// ---------------------------------------------------------------------------

pub open spec fn digit_char(d: int) -> char {
    if d == 0 {
        '0'
    } else if d == 1 {
        '1'
    } else if d == 2 {
        '2'
    } else if d == 3 {
        '3'
    } else if d == 4 {
        '4'
    } else if d == 5 {
        '5'
    } else if d == 6 {
        '6'
    } else if d == 7 {
        '7'
    } else if d == 8 {
        '8'
    } else {
        '9'
    }
}

pub open spec fn digit_value(c: char) -> int {
    if c == '0' {
        0
    } else if c == '1' {
        1
    } else if c == '2' {
        2
    } else if c == '3' {
        3
    } else if c == '4' {
        4
    } else if c == '5' {
        5
    } else if c == '6' {
        6
    } else if c == '7' {
        7
    } else if c == '8' {
        8
    } else {
        9
    }
}

pub open spec fn is_digit(c: char) -> bool {
    '0' <= c && c <= '9'
}

/// The decimal notation of `n`, without sign or leading zeros.
pub open spec fn decimal(n: nat) -> Seq<char>
    decreases n,
{
    if n < 10 {
        seq![digit_char(n as int)]
    } else {
        decimal(n / 10).push(digit_char((n % 10) as int))
    }
}

/// The number that a string of decimal digits stands for.
pub open spec fn decimal_value(s: Seq<char>) -> int
    decreases s.len(),
{
    if s.len() == 0 {
        0
    } else {
        decimal_value(s.drop_last()) * 10 + digit_value(s.last())
    }
}

fn digit_str(d: u32) -> (s: &'static str)
    requires
        d < 10,
    ensures
        s@ == seq![digit_char(d as int)],
{
    if d == 0 {
        proof { reveal_strlit("0"); }
        "0"
    } else if d == 1 {
        proof { reveal_strlit("1"); }
        "1"
    } else if d == 2 {
        proof { reveal_strlit("2"); }
        "2"
    } else if d == 3 {
        proof { reveal_strlit("3"); }
        "3"
    } else if d == 4 {
        proof { reveal_strlit("4"); }
        "4"
    } else if d == 5 {
        proof { reveal_strlit("5"); }
        "5"
    } else if d == 6 {
        proof { reveal_strlit("6"); }
        "6"
    } else if d == 7 {
        proof { reveal_strlit("7"); }
        "7"
    } else if d == 8 {
        proof { reveal_strlit("8"); }
        "8"
    } else {
        proof { reveal_strlit("9"); }
        "9"
    }
}

/// Appends the decimal notation of `n` to `out`.
pub fn push_decimal(out: &mut String, n: u32)
    ensures
        final(out)@ == old(out)@ + decimal(n as nat),
    decreases n,
{
    if n >= 10 {
        push_decimal(out, n / 10);
    }
    out.append(digit_str(n % 10));
    proof {
        if n >= 10 {
            assert(old(out)@ + decimal((n / 10) as nat) + seq![digit_char((n % 10) as int)] =~= old(out)@ + decimal(n as nat));
        } else {
            assert(old(out)@ + seq![digit_char((n % 10) as int)] =~= old(out)@ + decimal(n as nat));
        }
    }
}

/// The decimal notation of a number stands for that number, is made of
/// digits only, and starts with a zero only when it is "0".
pub proof fn law_decimal_round_trip(n: nat)
    ensures
        decimal_value(decimal(n)) == n,
        forall|i: int| 0 <= i < decimal(n).len() ==> is_digit(#[trigger] decimal(n)[i]),
        decimal(n).len() >= 1,
        decimal(n)[0] == '0' ==> n == 0,
    decreases n,
{
    let k: int = (n % 10) as int;
    assert(digit_value(digit_char(k)) == k);
    if n < 10 {
        assert(decimal(n).drop_last() =~= Seq::<char>::empty());
        assert(decimal_value(Seq::<char>::empty()) == 0);
        assert(decimal_value(decimal(n)) == decimal_value(decimal(n).drop_last()) * 10 + digit_value(decimal(n).last()));
    } else {
        law_decimal_round_trip(n / 10);
        let d = decimal(n);
        assert(d.drop_last() =~= decimal(n / 10));
        assert(d.last() == digit_char(k));
        assert(decimal_value(d) == decimal_value(decimal(n / 10)) * 10 + k);
        assert((n / 10) * 10 + n % 10 == n) by (nonlinear_arith);
        assert(d[0] == decimal(n / 10)[0]);
        assert forall|i: int| 0 <= i < d.len() implies is_digit(#[trigger] d[i]) by {
            if i < d.len() - 1 {
                assert(d[i] == decimal(n / 10)[i]);
            }
        }
    }
}

// ---------------------------------------------------------------------------
// Notifications and tooltips
// ---------------------------------------------------------------------------

/// Title of a plain notification.
pub const TITLE_INFO: &'static str = "Clam";

/// Title of an error notification.
pub const TITLE_ERROR: &'static str = "Clam Error";

pub const BODY_STAY_AWAKE_ON: &'static str = "Stay-awake ON \u{2014} staying awake with lid shut";

pub const BODY_OFF_RESTORED: &'static str = "Stay-awake OFF \u{2014} normal sleep restored";

pub const BODY_OFF_DEFAULTS: &'static str = "Stay-awake OFF \u{2014} reset to defaults (state file missing)";

pub const BODY_RESET_DONE: &'static str = "Reset to normal defaults";

pub const BODY_ACCESS_DENIED: &'static str = "Access denied. Try running as administrator.";

pub const READ_FAILED: &'static str = "Read failed (";

pub const WRITE_FAILED: &'static str = "Write failed (";

pub const RESTORE_FAILED: &'static str = "Restore failed (";

pub const RESET_FAILED: &'static str = "Reset failed (";

pub const CLOSE_PAREN: &'static str = ")";

/// Tooltip while stay-awake is on.
pub const TIP_ON: &'static str = "Clam: ON \u{2014} staying awake with lid shut";

/// Tooltip while stay-awake is off.
pub const TIP_OFF: &'static str = "Clam: OFF \u{2014} normal sleep";

/// First line of the menu while stay-awake is on.
pub const STATUS_ACTIVE: &'static str = "Status: STAY-AWAKE (active)";

/// First line of the menu while stay-awake is off.
pub const STATUS_INACTIVE: &'static str = "Status: Normal (inactive)";

/// Menu item that writes Windows' defaults.
pub const MENU_RESET: &'static str = "Reset to normal defaults";

/// Menu item that switches starting with Windows on and off.
pub const MENU_AUTOSTART: &'static str = "Start with Windows";

/// Menu item that ends Clam.
pub const MENU_QUIT: &'static str = "Quit";

/// A notification balloon.
#[derive(Debug, PartialEq, Eq)]
pub enum Notice {
    /// Stay-awake was switched on.
    StayAwakeOn,
    /// Stay-awake was switched off and the captured settings are back.
    OffRestored,
    /// Stay-awake was switched off, but with no saved state the defaults were written.
    OffDefaults,
    /// The defaults were written from the menu.
    ResetDone,
    /// Reading the current settings failed with this Win32 error.
    ReadFailed(u32),
    /// Saving the captured settings failed; the text says why.
    SaveFailed(String),
    /// Writing the stay-awake values was refused for lack of rights.
    AccessDenied,
    /// Writing the stay-awake values failed with this Win32 error.
    WriteFailed(u32),
    /// Writing the settings back failed with this Win32 error.
    RestoreFailed(u32),
    /// Writing the defaults failed with this Win32 error.
    ResetFailed(u32),
}

pub open spec fn is_error_notice(n: Notice) -> bool {
    match n {
        Notice::StayAwakeOn | Notice::OffRestored | Notice::OffDefaults | Notice::ResetDone => false,
        _ => true,
    }
}

pub open spec fn spec_notice_title(n: Notice) -> Seq<char> {
    if is_error_notice(n) {
        TITLE_ERROR@
    } else {
        TITLE_INFO@
    }
}

pub open spec fn with_code(prefix: Seq<char>, code: u32) -> Seq<char> {
    prefix + decimal(code as nat) + CLOSE_PAREN@
}

pub open spec fn spec_notice_body(n: Notice) -> Seq<char> {
    match n {
        Notice::StayAwakeOn => BODY_STAY_AWAKE_ON@,
        Notice::OffRestored => BODY_OFF_RESTORED@,
        Notice::OffDefaults => BODY_OFF_DEFAULTS@,
        Notice::ResetDone => BODY_RESET_DONE@,
        Notice::ReadFailed(c) => with_code(READ_FAILED@, c),
        Notice::SaveFailed(e) => e@,
        Notice::AccessDenied => BODY_ACCESS_DENIED@,
        Notice::WriteFailed(c) => with_code(WRITE_FAILED@, c),
        Notice::RestoreFailed(c) => with_code(RESTORE_FAILED@, c),
        Notice::ResetFailed(c) => with_code(RESET_FAILED@, c),
    }
}

/// The title of a notification: "Clam Error" for a failure, else "Clam".
pub fn notice_title(n: &Notice) -> (t: &'static str)
    ensures
        t@ == spec_notice_title(*n),
{
    match n {
        Notice::StayAwakeOn | Notice::OffRestored | Notice::OffDefaults | Notice::ResetDone => TITLE_INFO,
        _ => TITLE_ERROR,
    }
}

fn coded(prefix: &str, code: u32) -> (s: String)
    ensures
        s@ == with_code(prefix@, code),
{
    let mut s = String::from_str(prefix);
    push_decimal(&mut s, code);
    s.append(CLOSE_PAREN);
    s
}

/// The text of a notification.
pub fn notice_body(n: &Notice) -> (b: String)
    ensures
        b@ == spec_notice_body(*n),
{
    match n {
        Notice::StayAwakeOn => String::from_str(BODY_STAY_AWAKE_ON),
        Notice::OffRestored => String::from_str(BODY_OFF_RESTORED),
        Notice::OffDefaults => String::from_str(BODY_OFF_DEFAULTS),
        Notice::ResetDone => String::from_str(BODY_RESET_DONE),
        Notice::ReadFailed(c) => coded(READ_FAILED, *c),
        Notice::SaveFailed(e) => String::from_str(e.as_str()),
        Notice::AccessDenied => String::from_str(BODY_ACCESS_DENIED),
        Notice::WriteFailed(c) => coded(WRITE_FAILED, *c),
        Notice::RestoreFailed(c) => coded(RESTORE_FAILED, *c),
        Notice::ResetFailed(c) => coded(RESET_FAILED, *c),
    }
}

pub open spec fn spec_tray_tip(active: bool) -> Seq<char> {
    if active {
        TIP_ON@
    } else {
        TIP_OFF@
    }
}

/// The tooltip of the tray icon.
pub fn tray_tip(active: bool) -> (t: &'static str)
    ensures
        t@ == spec_tray_tip(active),
{
    if active {
        TIP_ON
    } else {
        TIP_OFF
    }
}

pub open spec fn spec_menu_status(active: bool) -> Seq<char> {
    if active {
        STATUS_ACTIVE@
    } else {
        STATUS_INACTIVE@
    }
}

/// The greyed-out first line of the menu.
pub fn menu_status(active: bool) -> (t: &'static str)
    ensures
        t@ == spec_menu_status(active),
{
    if active {
        STATUS_ACTIVE
    } else {
        STATUS_INACTIVE
    }
}


/// What the user is told: a failure has the title "Clam Error" and a
/// success "Clam"; a failure with a Win32 error gives the number in
/// brackets after a fixed text, and the number read back is that error; the
/// tooltip and the menu's status line name the state stay-awake is in.
pub proof fn law_texts(n: Notice, c: u32, active: bool)
    ensures
        spec_notice_title(n) == (match n {
            Notice::StayAwakeOn | Notice::OffRestored | Notice::OffDefaults | Notice::ResetDone => "Clam"@,
            _ => "Clam Error"@,
        }),
        ({
            let body = spec_notice_body(Notice::ReadFailed(c));
            let k = "Read failed ("@.len();
            &&& body.take(k as int) == "Read failed ("@
            &&& body.last() == ')'
            &&& decimal_value(body.subrange(k as int, body.len() - 1)) == c
        }),
        spec_notice_body(Notice::WriteFailed(c)) == "Write failed ("@ + decimal(c as nat) + ")"@,
        spec_notice_body(Notice::RestoreFailed(c)) == "Restore failed ("@ + decimal(c as nat) + ")"@,
        spec_notice_body(Notice::ResetFailed(c)) == "Reset failed ("@ + decimal(c as nat) + ")"@,
        spec_notice_body(Notice::AccessDenied) == "Access denied. Try running as administrator."@,
        spec_tray_tip(active) == (if active { "Clam: ON \u{2014} staying awake with lid shut"@ } else { "Clam: OFF \u{2014} normal sleep"@ }),
        spec_menu_status(active) == (if active { "Status: STAY-AWAKE (active)"@ } else { "Status: Normal (inactive)"@ }),
{
    law_decimal_round_trip(c as nat);
    reveal_strlit("Read failed (");
    reveal_strlit(")");
    let body = spec_notice_body(Notice::ReadFailed(c));
    let k = "Read failed ("@.len();
    assert(body.subrange(k as int, body.len() - 1) =~= decimal(c as nat));
    assert(body.take(k as int) =~= "Read failed ("@);
}

// ---------------------------------------------------------------------------
// UTF-16
// ---------------------------------------------------------------------------

/// The UTF-16 code units of one character: the character itself below
/// U+10000, else a high surrogate and a low surrogate.
pub open spec fn utf16_of_char(c: char) -> Seq<u16> {
    let v: int = c as int;
    if v < 0x10000 {
        seq![v as u16]
    } else {
        let w: int = v - 0x10000;
        seq![(0xD800 + w / 1024) as u16, (0xDC00 + w % 1024) as u16]
    }
}

/// The UTF-16 code units of a string.
pub open spec fn utf16(s: Seq<char>) -> Seq<u16>
    decreases s.len(),
{
    if s.len() == 0 {
        seq![]
    } else {
        utf16(s.drop_last()) + utf16_of_char(s.last())
    }
}

pub open spec fn is_high_surrogate(u: u16) -> bool {
    0xD800 <= u <= 0xDBFF
}

pub open spec fn is_low_surrogate(u: u16) -> bool {
    0xDC00 <= u <= 0xDFFF
}

/// UTF-16 is faithful: a character below U+10000 is one unit equal to it and
/// not a surrogate; any other is a high and a low surrogate from which the
/// character is computed back.
pub proof fn law_utf16_char_round_trip(c: char)
    ensures
        (c as int) < 0x10000 ==> utf16_of_char(c) == seq![c as u16] && utf16_of_char(c)[0] as int == c as int
            && !is_high_surrogate(utf16_of_char(c)[0]) && !is_low_surrogate(utf16_of_char(c)[0]),
        (c as int) >= 0x10000 ==> {
            let u = utf16_of_char(c);
            &&& u.len() == 2
            &&& is_high_surrogate(u[0])
            &&& is_low_surrogate(u[1])
            &&& 0x10000 + (u[0] - 0xD800) * 1024 + (u[1] - 0xDC00) == c as int
        },
{
    let v: int = c as int;
    assert(0 <= v <= 0x10FFFF);
    assert(v < 0xD800 || v > 0xDFFF);
    if v >= 0x10000 {
        let w: int = v - 0x10000;
        assert(0 <= w / 1024 < 1024 && 0 <= w % 1024 < 1024 && (w / 1024) * 1024 + w % 1024 == w) by (nonlinear_arith)
            requires 0 <= w < 0x100000;
    }
}

fn push_char_utf16(out: &mut Vec<u16>, c: char)
    ensures
        final(out)@ == old(out)@ + utf16_of_char(c),
{
    let v: u32 = c as u32;
    proof {
        assert(v as int == c as int);
    }
    if v < 0x10000 {
        out.push(v as u16);
    } else {
        let w: u32 = v - 0x10000;
        assert(w / 1024 < 1024 && w % 1024 < 1024) by (nonlinear_arith)
            requires w < 0x100000;
        out.push((0xD800 + w / 1024) as u16);
        out.push((0xDC00 + w % 1024) as u16);
    }
    proof {
        assert(final(out)@ =~= old(out)@ + utf16_of_char(c));
    }
}

/// The UTF-16 code units of `s`.
pub fn encode_utf16(s: &str) -> (units: Vec<u16>)
    ensures
        units@ == utf16(s@),
{
    let n: usize = s.unicode_len();
    let mut units: Vec<u16> = Vec::new();
    let mut i: usize = 0;
    while i < n
        invariant
            n == s@.len(),
            i <= n,
            units@ == utf16(s@.take(i as int)),
        decreases n - i,
    {
        let c = s.get_char(i);
        push_char_utf16(&mut units, c);
        proof {
            assert(s@.take(i + 1).drop_last() =~= s@.take(i as int));
            assert(s@.take(i + 1).last() == c);
        }
        i = i + 1;
    }
    proof {
        assert(s@.take(n as int) =~= s@);
    }
    units
}

/// The UTF-16 code units of `s` followed by a terminating NUL, as the Win32
/// API takes a wide string.
pub fn to_wide_nul(s: &str) -> (units: Vec<u16>)
    ensures
        units@ == utf16(s@).push(0),
{
    let mut units = encode_utf16(s);
    units.push(0);
    units
}

/// `dst` after `wide` has copied `s` into it: the UTF-16 units of `s`, cut
/// short so that the last slot can hold a NUL, then the old contents, then
/// the NUL.
pub open spec fn wide_fill(dst: Seq<u16>, s: Seq<char>) -> Seq<u16> {
    let u = utf16(s);
    let last: int = dst.len() - 1;
    Seq::new(dst.len(), |i: int| if i == last { 0u16 } else if i < u.len() { u[i] } else { dst[i] })
}

/// Copies `s` into a fixed-size wide-character field, truncating it so that
/// the field always ends in a NUL.
pub fn wide(dst: &mut [u16], s: &str)
    requires
        old(dst)@.len() >= 1,
    ensures
        final(dst)@ == wide_fill(old(dst)@, s@),
{
    let units = encode_utf16(s);
    let last: usize = dst.len() - 1;
    let mut i: usize = 0;
    while i < units.len() && i < last
        invariant
            last == dst@.len() - 1,
            dst@.len() == old(dst)@.len(),
            units@ == utf16(s@),
            i <= last,
            i <= units@.len(),
            forall|j: int| 0 <= j < i ==> dst@[j] == units@[j],
            forall|j: int| i <= j < dst@.len() ==> dst@[j] == old(dst)@[j],
        decreases last - i,
    {
        dst[i] = units[i];
        i = i + 1;
    }
    dst[last] = 0;
    proof {
        assert(final(dst)@ =~= wide_fill(old(dst)@, s@));
    }
}

/// What `wide` leaves in the field always ends in a NUL, and before it
/// holds as much of the UTF-16 form of the string as fits.
pub proof fn law_wide_is_terminated_prefix(dst: Seq<u16>, s: Seq<char>)
    requires
        dst.len() >= 1,
    ensures
        wide_fill(dst, s).len() == dst.len(),
        wide_fill(dst, s)[dst.len() - 1] == 0,
        forall|i: int| 0 <= i < dst.len() - 1 && i < utf16(s).len() ==> #[trigger] wide_fill(dst, s)[i] == utf16(s)[i],
{
}

/// Each 16-bit unit as two bytes, low byte first.
pub open spec fn le_bytes_of(units: Seq<u16>, b: Seq<u8>) -> bool {
    &&& b.len() == 2 * units.len()
    &&& forall|i: int| 0 <= i < units.len() ==> {
        &&& #[trigger] b[2 * i] == units[i] % 256
        &&& b[2 * i + 1] == units[i] / 256
    }
}

/// The bytes of a `REG_SZ` registry value holding `s`: its UTF-16 units and
/// a terminating NUL, each unit low byte first.
pub fn reg_sz_bytes(s: &str) -> (bytes: Vec<u8>)
    ensures
        le_bytes_of(utf16(s@).push(0), bytes@),
{
    let units = to_wide_nul(s);
    let mut bytes: Vec<u8> = Vec::new();
    let mut i: usize = 0;
    while i < units.len()
        invariant
            i <= units@.len(),
            units@ == utf16(s@).push(0),
            le_bytes_of(units@.take(i as int), bytes@),
        decreases units@.len() - i,
    {
        let u: u16 = units[i];
        let ghost before = bytes@;
        bytes.push((u % 256) as u8);
        bytes.push((u / 256) as u8);
        proof {
            let t = units@.take(i + 1);
            assert forall|j: int| 0 <= j < t.len() implies {
                &&& #[trigger] bytes@[2 * j] == t[j] % 256
                &&& bytes@[2 * j + 1] == t[j] / 256
            } by {
                if j < i {
                    assert(units@.take(i as int)[j] == t[j]);
                    assert(bytes@[2 * j] == before[2 * j]);
                    assert(bytes@[2 * j + 1] == before[2 * j + 1]);
                } else {
                    assert(j == i);
                    assert(t[j] == u);
                }
            }
        }
        i = i + 1;
    }
    proof {
        assert(units@.take(units@.len() as int) =~= units@);
    }
    bytes
}

} // verus!
