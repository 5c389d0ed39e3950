//! Panel variants, their fixed grid geometry, and the flattening of the
//! nested row/slot configuration into one row-major list of button slots.

use vstd::prelude::*;

verus! {

/// What one configured button shows and does.
///
/// Paths are kept as text. `text_size` is the glyph height in hundredths of
/// a pixel, so that the line advance can be computed exactly.
#[derive(Clone, Debug, PartialEq, Eq)]
pub struct ButtonConfig {
    pub text: Option<String>,
    pub text_size: Option<u32>,
    pub image: Option<String>,
    pub sound: Option<String>,
    pub repeat: bool,
    pub topic: Option<String>,
    pub payload: Option<String>,
    pub playlist: Option<String>,
}

/// One configured row: up to eight slots, named by position.
#[derive(Clone, Debug)]
pub struct Row {
    pub one: Option<ButtonConfig>,
    pub two: Option<ButtonConfig>,
    pub three: Option<ButtonConfig>,
    pub four: Option<ButtonConfig>,
    pub five: Option<ButtonConfig>,
    pub six: Option<ButtonConfig>,
    pub seven: Option<ButtonConfig>,
    pub eight: Option<ButtonConfig>,
}

/// The configured rows: up to four, named by position.
#[derive(Clone, Debug)]
pub struct Buttons {
    pub first: Option<Row>,
    pub second: Option<Row>,
    pub third: Option<Row>,
    pub fourth: Option<Row>,
}

/// A supported panel variant.
#[derive(Clone, Copy, Debug, PartialEq, Eq, Structural)]
pub enum Device {
    Original,
    OriginalV2,
    Mk2,
    Mini,
    RevisedMini,
    XL,
}

/// USB vendor id of the panels.
pub const ELGATO_VID: u16 = 0x0fd9;

impl Row {
    /// The eight slots of the row, left to right.
    pub open spec fn slots(self) -> Seq<Option<ButtonConfig>> {
        seq![
            self.one,
            self.two,
            self.three,
            self.four,
            self.five,
            self.six,
            self.seven,
            self.eight,
        ]
    }

    /// The first `limit` slots of the row (all eight if `limit` is larger).
    pub open spec fn spec_list(self, limit: nat) -> Seq<Option<ButtonConfig>> {
        if limit <= 8 {
            self.slots().take(limit as int)
        } else {
            self.slots()
        }
    }

    /// The leading slots of the row, at most `limit` of them, left to right.
    pub fn list(self, limit: usize) -> (out: Vec<Option<ButtonConfig>>)
        ensures
            out@ == self.spec_list(limit as nat),
    {
        let Row { one, two, three, four, five, six, seven, eight } = self;
        let mut out: Vec<Option<ButtonConfig>> = Vec::new();
        out.push(one);
        out.push(two);
        out.push(three);
        out.push(four);
        out.push(five);
        out.push(six);
        out.push(seven);
        out.push(eight);
        assert(out@ =~= self.slots());
        out.truncate(limit);
        out
    }
}

/// The cells that one configured row contributes to a grid of `columns`
/// columns: its leading slots, or as many empty cells where the row is absent.
pub open spec fn row_cells(row: Option<Row>, columns: nat) -> Seq<Option<ButtonConfig>> {
    match row {
        Some(r) => r.spec_list(columns),
        None => Seq::new(columns, |i: int| None::<ButtonConfig>),
    }
}

/// Appends the cells of one configured row to `out`.
fn extend_row(out: &mut Vec<Option<ButtonConfig>>, row: Option<Row>, columns: usize)
    ensures
        final(out)@ == old(out)@ + row_cells(row, columns as nat),
{
    match row {
        Some(r) => {
            let mut cells = r.list(columns);
            out.append(&mut cells);
        },
        None => {
            let mut i: usize = 0;
            while i < columns
                invariant
                    i <= columns,
                    out@ =~= old(out)@ + Seq::new(i as nat, |k: int| None::<ButtonConfig>),
                decreases columns - i,
            {
                out.push(None);
                i += 1;
            }
        },
    }
}

impl Device {
    /// Number of button rows of the variant.
    pub open spec fn spec_rows(self) -> nat {
        match self {
            Device::Mk2 | Device::Original | Device::OriginalV2 => 3,
            Device::RevisedMini | Device::Mini => 2,
            Device::XL => 4,
        }
    }

    /// Number of button columns of the variant.
    pub open spec fn spec_columns(self) -> nat {
        match self {
            Device::Mk2 | Device::Original | Device::OriginalV2 => 5,
            Device::RevisedMini | Device::Mini => 3,
            Device::XL => 8,
        }
    }

    /// Edge length in pixels of the square image a button of the variant shows.
    pub open spec fn spec_button_px(self) -> nat {
        match self {
            Device::Mk2 | Device::Original | Device::OriginalV2 => 72,
            Device::RevisedMini | Device::Mini => 80,
            Device::XL => 96,
        }
    }

    /// USB product id of the variant.
    pub open spec fn spec_pid(self) -> u16 {
        match self {
            Device::Original => 0x0060,
            Device::OriginalV2 => 0x006d,
            Device::Mini => 0x0063,
            Device::XL => 0x006c,
            Device::Mk2 => 0x0080,
            Device::RevisedMini => 0x0090,
        }
    }

    /// Number of buttons of the variant.
    pub open spec fn spec_keys(self) -> nat {
        self.spec_rows() * self.spec_columns()
    }

    pub fn rows(&self) -> (n: usize)
        ensures
            n == self.spec_rows(),
    {
        match self {
            Device::Mk2 | Device::Original | Device::OriginalV2 => 3,
            Device::RevisedMini | Device::Mini => 2,
            Device::XL => 4,
        }
    }

    pub fn columns(&self) -> (n: usize)
        ensures
            n == self.spec_columns(),
    {
        match self {
            Device::Mk2 | Device::Original | Device::OriginalV2 => 5,
            Device::RevisedMini | Device::Mini => 3,
            Device::XL => 8,
        }
    }

    /// USB product id under which the variant is found.
    pub fn pid(&self) -> (id: u16)
        ensures
            id == self.spec_pid(),
    {
        match self {
            Device::Original => 0x0060,
            Device::OriginalV2 => 0x006d,
            Device::Mini => 0x0063,
            Device::XL => 0x006c,
            Device::Mk2 => 0x0080,
            Device::RevisedMini => 0x0090,
        }
    }

    /// Width and height in pixels of a button image of the variant.
    pub fn image_size(&self) -> (size: (u32, u32))
        ensures
            size.0 == self.spec_button_px(),
            size.1 == self.spec_button_px(),
    {
        match self {
            Device::Mk2 | Device::Original | Device::OriginalV2 => (72, 72),
            Device::RevisedMini | Device::Mini => (80, 80),
            Device::XL => (96, 96),
        }
    }

    /// Rows, columns and button pixel size of the variant.
    pub fn geometry(&self) -> (g: (usize, usize, u32))
        ensures
            g.0 == self.spec_rows(),
            g.1 == self.spec_columns(),
            g.2 == self.spec_button_px(),
    {
        (self.rows(), self.columns(), self.image_size().0)
    }
}

impl Buttons {
    /// The configured row at position `r` (0-based), if there is one.
    pub open spec fn spec_row(self, r: int) -> Option<Row> {
        if r == 0 {
            self.first
        } else if r == 1 {
            self.second
        } else if r == 2 {
            self.third
        } else if r == 3 {
            self.fourth
        } else {
            None
        }
    }

    /// The configuration of the slot in row `r`, column `c`: `None` where the
    /// row or the slot is not configured.
    pub open spec fn spec_cell(self, r: int, c: int) -> Option<ButtonConfig> {
        match self.spec_row(r) {
            Some(row) => if 0 <= c < 8 {
                row.slots()[c]
            } else {
                None
            },
            None => None,
        }
    }

    /// The button table of `device` as a sequence: row after row, each row
    /// left to right.
    pub open spec fn spec_list(self, device: Device) -> Seq<Option<ButtonConfig>> {
        Seq::new(
            device.spec_keys(),
            |i: int|
                self.spec_cell(
                    i / (device.spec_columns() as int),
                    i % (device.spec_columns() as int),
                ),
        )
    }

    /// The entry of the button table of `device` for row `r`, column `c`.
    pub open spec fn spec_entry(self, device: Device, r: int, c: int) -> Option<ButtonConfig> {
        self.spec_list(device)[r * device.spec_columns() + c]
    }

    /// Flattens the configuration onto the grid of `device`.
    ///
    /// The result has one entry per button of the variant, in row-major
    /// order from the top left. Rows and slots beyond the variant's geometry
    /// are dropped; a row that is not configured gives a full row of `None`.
    pub fn list(self, device: Device) -> (out: Vec<Option<ButtonConfig>>)
        ensures
            out@.len() == device.spec_rows() * device.spec_columns(),
            forall|r: int, c: int|
                0 <= r < device.spec_rows() && 0 <= c < device.spec_columns() ==> out@[r
                    * device.spec_columns() + c] == self.spec_cell(r, c),
            out@ == self.spec_list(device),
    {
        let rows = device.rows();
        let columns = device.columns();
        let Buttons { first, second, third, fourth } = self;
        let mut out: Vec<Option<ButtonConfig>> = Vec::new();
        extend_row(&mut out, first, columns);
        extend_row(&mut out, second, columns);
        if rows > 2 {
            extend_row(&mut out, third, columns);
        }
        if rows > 3 {
            extend_row(&mut out, fourth, columns);
        }
        proof {
            let cols = columns as int;
            assert(out@.len() == rows * cols);
            assert forall|r: int, c: int| 0 <= r < rows && 0 <= c < cols implies out@[r * cols
                + c] == self.spec_cell(r, c) by {
                if r == 0 {
                    assert(r * cols + c == c);
                } else if r == 1 {
                    assert(r * cols + c == cols + c);
                } else if r == 2 {
                    assert(r * cols + c == 2 * cols + c);
                } else {
                    assert(r * cols + c == 3 * cols + c);
                }
            }
            assert forall|i: int| 0 <= i < out@.len() implies out@[i] == self.spec_list(
                device,
            )[i] by {
                let r = i / cols;
                let c = i % cols;
                assert(i == r * cols + c && 0 <= c < cols && 0 <= r < rows) by (nonlinear_arith)
                    requires
                        0 <= i < rows * cols,
                        cols > 0,
                        r == i / cols,
                        c == i % cols,
                ;
            }
            assert(out@ =~= self.spec_list(device));
        }
        out
    }

    /// The button table of every variant has one entry per button, in
    /// row-major order from the top left, and a row that is not configured
    /// contributes a full row of `None`.
    pub proof fn lemma_table_shape(self, device: Device)
        ensures
            self.spec_list(device).len() == device.spec_rows() * device.spec_columns(),
            forall|r: int, c: int|
                0 <= r < device.spec_rows() && 0 <= c < device.spec_columns()
                    ==> #[trigger] self.spec_entry(device, r, c) == self.spec_cell(r, c),
            forall|r: int, c: int|
                0 <= r < device.spec_rows() && 0 <= c < device.spec_columns() && self.spec_row(
                    r,
                ).is_none() ==> (#[trigger] self.spec_entry(device, r, c)).is_none(),
    {
        let rows = device.spec_rows() as int;
        let cols = device.spec_columns() as int;
        assert forall|r: int, c: int|
            0 <= r < rows && 0 <= c < cols implies #[trigger] self.spec_entry(device, r, c)
            == self.spec_cell(r, c) by {
            let i = r * cols + c;
            if r == 0 {
                assert(i == c);
            } else if r == 1 {
                assert(i == cols + c);
            } else if r == 2 {
                assert(i == 2 * cols + c);
            } else {
                assert(i == 3 * cols + c);
            }
            assert(0 <= i < rows * cols);
            assert(i / cols == r && i % cols == c);
        }
    }

    /// Rows and slots beyond the variant's geometry are dropped: two
    /// configurations that agree on every slot inside the grid have the same
    /// button table, whatever else they hold.
    pub proof fn lemma_beyond_geometry_is_dropped(self, other: Buttons, device: Device)
        requires
            forall|r: int, c: int|
                0 <= r < device.spec_rows() && 0 <= c < device.spec_columns() ==> self.spec_cell(
                    r,
                    c,
                ) == other.spec_cell(r, c),
        ensures
            self.spec_list(device) == other.spec_list(device),
    {
        let rows = device.spec_rows() as int;
        let cols = device.spec_columns() as int;
        assert forall|i: int| 0 <= i < rows * cols implies self.spec_list(device)[i]
            == other.spec_list(device)[i] by {
            let r = i / cols;
            let c = i % cols;
            assert(0 <= c < cols && 0 <= r < rows) by (nonlinear_arith)
                requires
                    0 <= i < rows * cols,
                    cols > 0,
                    r == i / cols,
                    c == i % cols,
            ;
        }
        assert(self.spec_list(device) =~= other.spec_list(device));
    }
}

} // verus!
