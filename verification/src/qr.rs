//! An address drawn as a QR code: the symbol's dark modules as the path of
//! an SVG image.

use vstd::prelude::*;
use vstd::string::StringExecFns;
use qrcodegen::{QrCode, QrCodeEcc};

verus! {

/// The width of the light border around a symbol, in modules.
pub const QR_BORDER: i32 = 4;

/// The side of the largest symbol, in modules.
pub const MAX_QR_SIZE: usize = 177;

/// The rows of modules, dark being `true`, of the QR code symbol that holds
/// `text` at the high error correction level; `None` where `text` is too
/// long for any symbol.
pub uninterp spec fn qr_rows(text: Seq<char>) -> Option<Seq<Seq<bool>>>;

/// The rows of `rows`, each as a sequence.
pub open spec fn rows_view(rows: Vec<Vec<bool>>) -> Seq<Seq<bool>> {
    rows@.map_values(|row: Vec<bool>| row@)
}

/// `QrCode::encode_text` at `QrCodeEcc::High`, the symbol read out module
/// by module with `size` and `get_module`. The encoding reads nothing but
/// the text, so the rows are those that `qr_rows` names.
#[verifier::external_body]
fn encode_text(text: &str) -> (r: Option<Vec<Vec<bool>>>)
    ensures
        match r {
            Some(rows) => qr_rows(text@) == Some(rows_view(rows)),
            None => qr_rows(text@) is None,
        },
{
    let qr = QrCode::encode_text(text, QrCodeEcc::High).ok()?;
    Some((0..qr.size()).map(|y| (0..qr.size()).map(|x| qr.get_module(x, y)).collect()).collect())
}

/// The rows are those of a symbol: as many rows as each row has modules,
/// and no more than the largest symbol has.
pub open spec fn is_symbol(rows: Seq<Seq<bool>>) -> bool {
    &&& rows.len() <= MAX_QR_SIZE
    &&& forall|y: int| 0 <= y < rows.len() ==> (#[trigger] rows[y]).len() == rows.len()
}

/// A QR code symbol: a square of modules.
pub struct QrGrid {
    rows: Vec<Vec<bool>>,
}

impl View for QrGrid {
    type V = Seq<Seq<bool>>;

    closed spec fn view(&self) -> Seq<Seq<bool>> {
        rows_view(self.rows)
    }
}

impl QrGrid {
    #[verifier::type_invariant]
    spec fn well_formed(self) -> bool {
        is_symbol(rows_view(self.rows))
    }

    /// The symbol with the rows `rows`, if they are those of a symbol.
    pub fn new(rows: Vec<Vec<bool>>) -> (r: Option<QrGrid>)
        ensures
            match r {
                Some(grid) => is_symbol(rows_view(rows)) && grid@ == rows_view(rows),
                None => !is_symbol(rows_view(rows)),
            },
    {
        let size = rows.len();
        if size > MAX_QR_SIZE {
            return None;
        }
        let mut y: usize = 0;
        while y < size
            invariant
                size == rows@.len(),
                y <= size,
                forall|i: int| 0 <= i < y ==> (#[trigger] rows_view(rows)[i]).len() == size,
            decreases size - y,
        {
            if rows[y].len() != size {
                assert(rows_view(rows)[y as int].len() != size);
                return None;
            }
            y += 1;
        }
        Some(QrGrid { rows })
    }

    /// The side of the symbol, in modules.
    pub fn size(&self) -> (r: i32)
        ensures
            r == self@.len(),
            is_symbol(self@),
    {
        proof {
            use_type_invariant(self);
        }
        self.rows.len() as i32
    }

    /// Whether the module in column `x` of row `y` is dark; outside the
    /// symbol all is light.
    pub fn get_module(&self, x: i32, y: i32) -> (dark: bool)
        ensures
            dark == (0 <= x < self@.len() && 0 <= y < self@.len() && self@[y as int][x as int]),
    {
        proof {
            use_type_invariant(self);
        }
        let size = self.rows.len();
        if 0 <= x && 0 <= y && (x as usize) < size && (y as usize) < size {
            assert(rows_view(self.rows)[y as int].len() == size);
            self.rows[y as usize][x as usize]
        } else {
            false
        }
    }
}

/// The decimal digit `d`.
pub open spec fn digit_text(d: nat) -> Seq<char> {
    if d == 0 {
        "0"@
    } else if d == 1 {
        "1"@
    } else if d == 2 {
        "2"@
    } else if d == 3 {
        "3"@
    } else if d == 4 {
        "4"@
    } else if d == 5 {
        "5"@
    } else if d == 6 {
        "6"@
    } else if d == 7 {
        "7"@
    } else if d == 8 {
        "8"@
    } else {
        "9"@
    }
}

/// The number `n` in decimal digits, without leading zeros.
pub open spec fn decimal_text(n: nat) -> Seq<char>
    decreases n,
{
    if n < 10 {
        digit_text(n)
    } else {
        decimal_text(n / 10) + digit_text(n % 10)
    }
}

/// The decimal digit `d`.
fn digit(d: u32) -> (r: &'static str)
    requires
        d < 10,
    ensures
        r@ == digit_text(d as nat),
{
    if d == 0 {
        "0"
    } else if d == 1 {
        "1"
    } else if d == 2 {
        "2"
    } else if d == 3 {
        "3"
    } else if d == 4 {
        "4"
    } else if d == 5 {
        "5"
    } else if d == 6 {
        "6"
    } else if d == 7 {
        "7"
    } else if d == 8 {
        "8"
    } else {
        "9"
    }
}

/// The number `n` in decimal digits, without leading zeros.
pub fn decimal(n: u32) -> (r: String)
    ensures
        r@ == decimal_text(n as nat),
    decreases n,
{
    if n < 10 {
        String::from_str(digit(n))
    } else {
        decimal(n / 10).concat(digit(n % 10))
    }
}

/// What the module in column `x` of row `y` adds to the path where it is
/// dark: a unit square at its place inside the border, set off by a space
/// from what precedes it unless it is the first module of the symbol.
pub open spec fn module_text(x: nat, y: nat, border: nat) -> Seq<char> {
    (if x != 0 || y != 0 {
        " "@
    } else {
        Seq::<char>::empty()
    }) + "M"@ + decimal_text(x + border) + ","@ + decimal_text(y + border) + "h1v1h-1z"@
}

/// The path of the first `n` modules of the row `row`, which is row `y`.
pub open spec fn row_text(row: Seq<bool>, y: nat, border: nat, n: nat) -> Seq<char>
    decreases n,
{
    if n == 0 {
        Seq::<char>::empty()
    } else {
        row_text(row, y, border, (n - 1) as nat) + if row[n - 1] {
            module_text((n - 1) as nat, y, border)
        } else {
            Seq::<char>::empty()
        }
    }
}

/// The path of the first `m` rows of `rows`.
pub open spec fn rows_text(rows: Seq<Seq<bool>>, border: nat, m: nat) -> Seq<char>
    decreases m,
{
    if m == 0 {
        Seq::<char>::empty()
    } else {
        rows_text(rows, border, (m - 1) as nat) + row_text(
            rows[m - 1],
            (m - 1) as nat,
            border,
            rows[m - 1].len(),
        )
    }
}

/// The view box of an image of `dimension` by `dimension` modules.
pub open spec fn view_box_text(dimension: nat) -> Seq<char> {
    "0 0 "@ + decimal_text(dimension) + " "@ + decimal_text(dimension)
}

/// What draws a symbol in an SVG image.
#[derive(Debug, PartialEq, Eq)]
pub struct SvgPath {
    /// The image's view box: the symbol with its border.
    pub view_box: String,
    /// The path's data: one unit square for each dark module, row by row.
    pub d: String,
}

/// The path of the module in column `x` of row `y`, which is dark.
fn square_path(x: i32, y: i32, border: i32) -> (r: String)
    requires
        0 <= x,
        0 <= y,
        0 <= border,
        x + border <= i32::MAX,
        y + border <= i32::MAX,
    ensures
        r@ == module_text(x as nat, y as nat, border as nat),
{
    let mut text = String::new();
    if x != 0 || y != 0 {
        text.append(" ");
    }
    text.append("M");
    text.append(decimal((x + border) as u32).as_str());
    text.append(",");
    text.append(decimal((y + border) as u32).as_str());
    text.append("h1v1h-1z");
    text
}

/// The symbol `qr` with a light border of `border` modules around it, as
/// the path of an SVG image.
pub fn qr_to_svg(qr: &QrGrid, border: i32) -> (r: SvgPath)
    requires
        0 <= border,
        qr@.len() + 2 * border <= i32::MAX,
    ensures
        r.view_box@ == view_box_text((qr@.len() + 2 * border) as nat),
        r.d@ == rows_text(qr@, border as nat, qr@.len()),
{
    let mut path_d = String::new();
    let size = qr.size();
    let dimension = size + border * 2;
    let mut y: i32 = 0;
    while y < size
        invariant
            0 <= y <= size,
            size == qr@.len(),
            is_symbol(qr@),
            0 <= border,
            size + 2 * border <= i32::MAX,
            path_d@ == rows_text(qr@, border as nat, y as nat),
        decreases size - y,
    {
        let ghost before = path_d@;
        let mut x: i32 = 0;
        while x < size
            invariant
                0 <= x <= size,
                0 <= y < size,
                size == qr@.len(),
                is_symbol(qr@),
                0 <= border,
                size + 2 * border <= i32::MAX,
                path_d@ == before + row_text(qr@[y as int], y as nat, border as nat, x as nat),
            decreases size - x,
        {
            let ghost row_before = row_text(qr@[y as int], y as nat, border as nat, x as nat);
            if qr.get_module(x, y) {
                let module = square_path(x, y, border);
                path_d.append(module.as_str());
                assert(path_d@ == before + (row_before + module@));
            } else {
                assert(path_d@ == before + (row_before + Seq::<char>::empty()));
            }
            x += 1;
        }
        y += 1;
    }
    let side = decimal(dimension as u32);
    let view_box = String::from_str("0 0 ").concat(side.as_str()).concat(" ").concat(
        side.as_str(),
    );
    SvgPath { view_box, d: path_d }
}

/// The address `address` as a QR code at the high error correction level,
/// drawn with the border of four modules; `None` where the address is too
/// long for any symbol.
pub fn address_qrcode(address: &str) -> (r: Option<SvgPath>)
    ensures
        match qr_rows(address@) {
            Some(rows) if is_symbol(rows) => r matches Some(svg) && svg.view_box@
                == view_box_text((rows.len() + 2 * QR_BORDER) as nat) && svg.d@ == rows_text(
                rows,
                QR_BORDER as nat,
                rows.len(),
            ),
            _ => r is None,
        },
{
    let rows = match encode_text(address) {
        Some(rows) => rows,
        None => {
            return None;
        },
    };
    match QrGrid::new(rows) {
        Some(qr) => Some(qr_to_svg(&qr, QR_BORDER)),
        None => None,
    }
}

} // verus!
