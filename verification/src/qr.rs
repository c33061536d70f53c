//! QR codes drawn in the terminal: the rows of a code as the `qrcode` crate
//! renders it with Unicode blocks, and the bordered frame the pairing
//! screen prints around them.
use vstd::prelude::*;
use crate::certs::{lines_spec, split_lines};
use crate::text::{push_char, views};

verus! {

/// The text `qrcode` renders for `data` (`QrCode::new` on its bytes, then
/// `render::<char>()` with a quiet zone and modules two characters wide and
/// one line high), or `None` when the data does not fit in a QR code.
pub uninterp spec fn qr_text(data: Seq<char>) -> Option<Seq<char>>;

/// The rendered code of `data`, or the crate's message when it cannot be
/// built (the data is too long). The rendering depends on the data alone.
#[verifier::external_body]
fn render_qr(data: &str) -> (r: Result<String, String>)
    ensures
        match r {
            Ok(t) => qr_text(data@) == Some(t@),
            Err(_) => qr_text(data@) is None,
        },
{
    match qrcode::QrCode::new(data.as_bytes()) {
        Ok(code) => Ok(code.render::<char>().quiet_zone(true).module_dimensions(2, 1).build()),
        Err(e) => Err(e.to_string()),
    }
}

/// The rows of the QR code of `data`, top to bottom; `Err` carries the
/// crate's message when the data does not fit in a QR code.
pub fn qr_lines(data: &str) -> (r: Result<Vec<String>, String>)
    ensures
        match r {
            Ok(v) => qr_text(data@) matches Some(t) && views(v@) == lines_spec(t),
            Err(_) => qr_text(data@) is None,
        },
{
    match render_qr(data) {
        Ok(t) => Ok(split_lines(t.as_str())),
        Err(e) => Err(e),
    }
}

/// The widest of the rows, counted in UTF-8 bytes.
pub open spec fn byte_width(rows: Seq<Seq<char>>) -> nat
    decreases rows.len(),
{
    if rows.len() == 0 {
        0
    } else {
        let w = byte_width(rows.drop_last());
        let l = vstd::utf8::encode_utf8(rows.last()).len();
        if l > w {
            l
        } else {
            w
        }
    }
}

/// `n` copies of `c`.
pub open spec fn repeated(c: char, n: nat) -> Seq<char> {
    Seq::new(n, |_i: int| c)
}

/// `t` centred in a field of `width` characters, the odd space going to
/// the right (Rust's `{:^width$}`).
pub open spec fn centered(t: Seq<char>, width: nat) -> Seq<char> {
    if width <= t.len() {
        t
    } else {
        let pad = (width - t.len()) as nat;
        repeated(' ', pad / 2) + t + repeated(' ', (pad - pad / 2) as nat)
    }
}

/// The pairing screen's box around the rows of a code: a border as wide as
/// the widest row (in bytes) plus two, a title row, a separator, each row
/// indented inside the box, and the bottom border.
pub open spec fn framed(rows: Seq<Seq<char>>) -> Seq<Seq<char>> {
    let w = byte_width(rows) + 2;
    seq![
        "  ┌─"@ + repeated('─', w) + "─┐"@,
        "  │ "@ + centered("FileDrop Pairing"@, w) + " │"@,
        "  ├─"@ + repeated('─', w) + "─┤"@,
    ] + rows.map_values(|r: Seq<char>| "  │  "@ + r + "  │"@) + seq!["  └─"@ + repeated('─', w) + "─┘"@]
}

/// Appends `n` copies of `c`.
fn push_repeated(s: &mut String, c: char, n: usize)
    ensures
        final(s)@ == old(s)@ + repeated(c, n as nat),
{
    let mut i: usize = 0;
    while i < n
        invariant
            i <= n,
            s@ == old(s)@ + repeated(c, i as nat),
        decreases n - i,
    {
        push_char(s, c);
        assert(s@ =~= old(s)@ + repeated(c, (i + 1) as nat));
        i = i + 1;
    }
}

/// `left`, `n` copies of `c`, then `right`.
fn bar(left: &str, c: char, n: usize, right: &str) -> (r: String)
    ensures
        r@ == left@ + repeated(c, n as nat) + right@,
{
    let mut s = String::from_str(left);
    push_repeated(&mut s, c, n);
    s.append(right);
    s
}

/// The rows of a code inside the pairing screen's box.
pub fn pairing_frame(rows: &Vec<String>) -> (r: Vec<String>)
    requires
        byte_width(views(rows@)) + 2 <= usize::MAX,
    ensures
        views(r@) == framed(views(rows@)),
{
    let ghost vs = views(rows@);
    let mut width: usize = 0;
    let mut i: usize = 0;
    while i < rows.len()
        invariant
            i <= rows@.len(),
            vs == views(rows@),
            width == byte_width(vs.take(i as int)),
            byte_width(vs) + 2 <= usize::MAX,
        decreases rows@.len() - i,
    {
        proof {
            lemma_byte_width_prefix(vs, i as int + 1);
            assert(vs.take(i + 1).drop_last() =~= vs.take(i as int));
            assert(vs.take(i + 1).last() == rows@[i as int]@);
        }
        let l = rows[i].as_str().as_bytes().len();
        if l > width {
            width = l;
        }
        i = i + 1;
    }
    assert(vs.take(rows@.len() as int) =~= vs);
    let w = width + 2;
    let title = "FileDrop Pairing";
    let n = title.unicode_len();
    let mut head = String::from_str("  │ ");
    if w > n {
        let pad = w - n;
        push_repeated(&mut head, ' ', pad / 2);
        head.append(title);
        push_repeated(&mut head, ' ', pad - pad / 2);
    } else {
        head.append(title);
    }
    head.append(" │");
    assert(head@ =~= "  │ "@ + centered("FileDrop Pairing"@, w as nat) + " │"@);
    let mut out: Vec<String> = Vec::new();
    out.push(bar("  ┌─", '─', w, "─┐"));
    out.push(head);
    out.push(bar("  ├─", '─', w, "─┤"));
    let ghost top = views(out@);
    assert(top.len() == 3);
    let mut k: usize = 0;
    while k < rows.len()
        invariant
            k <= rows@.len(),
            vs == views(rows@),
            top.len() == 3,
            views(out@) == top + vs.take(k as int).map_values(
                |r: Seq<char>| "  │  "@ + r + "  │"@,
            ),
        decreases rows@.len() - k,
    {
        let mut line = String::from_str("  │  ");
        line.append(rows[k].as_str());
        line.append("  │");
        let ghost prev = views(out@);
        let ghost lv = line@;
        assert(vs[k as int] == rows@[k as int]@);
        out.push(line);
        assert(views(out@) =~= prev.push(lv));
        assert(vs.take(k + 1) =~= vs.take(k as int).push(vs[k as int]));
        assert(views(out@) =~= top + vs.take(k + 1).map_values(
            |r: Seq<char>| "  │  "@ + r + "  │"@,
        ));
        k = k + 1;
    }
    let ghost body = views(out@);
    let last = bar("  └─", '─', w, "─┘");
    let ghost lv = last@;
    out.push(last);
    assert(views(out@) =~= body.push(lv));
    assert(vs.take(rows@.len() as int) =~= vs);
    assert(w == byte_width(vs) + 2);
    assert(views(out@) =~= framed(vs));
    out
}

/// The width of a prefix never exceeds the width of the whole.
proof fn lemma_byte_width_prefix(rows: Seq<Seq<char>>, n: int)
    requires
        0 <= n <= rows.len(),
    ensures
        byte_width(rows.take(n)) <= byte_width(rows),
    decreases rows.len(),
{
    if n < rows.len() {
        assert(rows.drop_last().take(n) =~= rows.take(n));
        lemma_byte_width_prefix(rows.drop_last(), n);
    } else {
        assert(rows.take(n) =~= rows);
    }
}

} // verus!
