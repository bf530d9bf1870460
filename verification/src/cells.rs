use vstd::prelude::*;

verus! {

/// The mathematical value of one stored cell.
pub enum CellV {
    Null,
    Int(int),
    Text(Seq<char>),
    /// A stored value of a type this layer never writes (for example a blob);
    /// decoding always rejects it.
    Other,
}

/// One cell of a flat relational row, as this layer reads and writes it.
///
/// Monetary, probability and volume quantities are carried opaquely as 64-bit
/// patterns inside `Int` cells; this layer never interprets them, it only
/// stores and returns them losslessly.
#[derive(Clone, Debug, PartialEq)]
pub enum CellValue {
    Null,
    Int(i64),
    Text(String),
    Other,
}

impl View for CellValue {
    type V = CellV;

    open spec fn view(&self) -> CellV {
        match self {
            CellValue::Null => CellV::Null,
            CellValue::Int(i) => CellV::Int(*i as int),
            CellValue::Text(s) => CellV::Text(s@),
            CellValue::Other => CellV::Other,
        }
    }
}

impl DeepView for CellValue {
    type V = CellV;

    open spec fn deep_view(&self) -> CellV {
        self.view()
    }
}

// ---------------------------------------------------------------------------
// What a cell means as a typed column value
// ---------------------------------------------------------------------------

pub open spec fn cellv_text(c: CellV) -> Option<Seq<char>> {
    match c {
        CellV::Text(s) => Option::Some(s),
        _ => Option::None,
    }
}

pub open spec fn cellv_opt_text(c: CellV) -> Option<Option<Seq<char>>> {
    match c {
        CellV::Null => Option::Some(Option::None),
        CellV::Text(s) => Option::Some(Option::Some(s)),
        _ => Option::None,
    }
}

pub open spec fn cellv_i64(c: CellV) -> Option<i64> {
    match c {
        CellV::Int(v) => if i64::MIN <= v <= i64::MAX {
            Option::Some(v as i64)
        } else {
            Option::None
        },
        _ => Option::None,
    }
}

pub open spec fn cellv_opt_i64(c: CellV) -> Option<Option<i64>> {
    match c {
        CellV::Null => Option::Some(Option::None),
        CellV::Int(v) => if i64::MIN <= v <= i64::MAX {
            Option::Some(Option::Some(v as i64))
        } else {
            Option::None
        },
        _ => Option::None,
    }
}

/// A stored timestamp: a non-negative integer cell.
pub open spec fn cellv_u64(c: CellV) -> Option<u64> {
    match c {
        CellV::Int(v) => if 0 <= v <= i64::MAX {
            Option::Some(v as u64)
        } else {
            Option::None
        },
        _ => Option::None,
    }
}

pub open spec fn cellv_opt_u64(c: CellV) -> Option<Option<u64>> {
    match c {
        CellV::Null => Option::Some(Option::None),
        CellV::Int(v) => if 0 <= v <= i64::MAX {
            Option::Some(Option::Some(v as u64))
        } else {
            Option::None
        },
        _ => Option::None,
    }
}

/// A stored flag: exactly zero or one, never a silent reading of other
/// integers.
pub open spec fn cellv_bool(c: CellV) -> Option<bool> {
    match c {
        CellV::Int(v) => if v == 0 {
            Option::Some(false)
        } else if v == 1 {
            Option::Some(true)
        } else {
            Option::None
        },
        _ => Option::None,
    }
}

pub open spec fn cellv_opt_bool(c: CellV) -> Option<Option<bool>> {
    match c {
        CellV::Null => Option::Some(Option::None),
        CellV::Int(v) => if v == 0 {
            Option::Some(Option::Some(false))
        } else if v == 1 {
            Option::Some(Option::Some(true))
        } else {
            Option::None
        },
        _ => Option::None,
    }
}

// ---------------------------------------------------------------------------
// How a typed column value is stored as a cell
// ---------------------------------------------------------------------------

pub open spec fn enc_text(s: Seq<char>) -> CellV {
    CellV::Text(s)
}

pub open spec fn enc_opt_text(o: Option<Seq<char>>) -> CellV {
    match o {
        Option::Some(s) => CellV::Text(s),
        Option::None => CellV::Null,
    }
}

pub open spec fn enc_i64(v: i64) -> CellV {
    CellV::Int(v as int)
}

pub open spec fn enc_opt_i64(o: Option<i64>) -> CellV {
    match o {
        Option::Some(v) => CellV::Int(v as int),
        Option::None => CellV::Null,
    }
}

pub open spec fn enc_u64(v: u64) -> CellV {
    CellV::Int(v as int)
}

pub open spec fn enc_opt_u64(o: Option<u64>) -> CellV {
    match o {
        Option::Some(v) => CellV::Int(v as int),
        Option::None => CellV::Null,
    }
}

pub open spec fn enc_bool(b: bool) -> CellV {
    CellV::Int(
        if b {
            1
        } else {
            0
        },
    )
}

pub open spec fn enc_opt_bool(o: Option<bool>) -> CellV {
    match o {
        Option::Some(b) => enc_bool(b),
        Option::None => CellV::Null,
    }
}

// ---------------------------------------------------------------------------
// Executable accessors
// ---------------------------------------------------------------------------

pub fn cell_of_text(s: &String) -> (r: CellValue)
    ensures
        r@ == enc_text(s@),
{
    CellValue::Text(s.clone())
}

pub fn cell_of_opt_text(o: &Option<String>) -> (r: CellValue)
    ensures
        r@ == enc_opt_text(crate::data_types::view_opt_str(*o)),
{
    match o {
        Option::Some(s) => CellValue::Text(s.clone()),
        Option::None => CellValue::Null,
    }
}

pub fn cell_of_i64(v: i64) -> (r: CellValue)
    ensures
        r@ == enc_i64(v),
{
    CellValue::Int(v)
}

pub fn cell_of_opt_i64(o: &Option<i64>) -> (r: CellValue)
    ensures
        r@ == enc_opt_i64(*o),
{
    match o {
        Option::Some(v) => CellValue::Int(*v),
        Option::None => CellValue::Null,
    }
}

pub fn cell_of_u64(v: u64) -> (r: CellValue)
    requires
        v <= i64::MAX as u64,
    ensures
        r@ == enc_u64(v),
{
    CellValue::Int(v as i64)
}

pub fn cell_of_opt_u64(o: &Option<u64>) -> (r: CellValue)
    requires
        match *o {
            Option::Some(v) => v <= i64::MAX as u64,
            Option::None => true,
        },
    ensures
        r@ == enc_opt_u64(*o),
{
    match o {
        Option::Some(v) => CellValue::Int(*v as i64),
        Option::None => CellValue::Null,
    }
}

pub fn cell_of_bool(b: bool) -> (r: CellValue)
    ensures
        r@ == enc_bool(b),
{
    if b {
        CellValue::Int(1)
    } else {
        CellValue::Int(0)
    }
}

pub fn cell_of_opt_bool(o: &Option<bool>) -> (r: CellValue)
    ensures
        r@ == enc_opt_bool(*o),
{
    match o {
        Option::Some(b) => cell_of_bool(*b),
        Option::None => CellValue::Null,
    }
}

pub fn cell_text(c: &CellValue) -> (r: Option<String>)
    ensures
        crate::data_types::view_opt_str(r) == cellv_text(c@),
{
    match c {
        CellValue::Text(s) => Option::Some(s.clone()),
        _ => Option::None,
    }
}

pub fn cell_opt_text(c: &CellValue) -> (r: Option<Option<String>>)
    ensures
        match r {
            Option::Some(o) => cellv_opt_text(c@) == Option::Some(
                crate::data_types::view_opt_str(o),
            ),
            Option::None => cellv_opt_text(c@) is None,
        },
{
    match c {
        CellValue::Null => Option::Some(Option::None),
        CellValue::Text(s) => Option::Some(Option::Some(s.clone())),
        _ => Option::None,
    }
}

pub fn cell_i64(c: &CellValue) -> (r: Option<i64>)
    ensures
        r == cellv_i64(c@),
{
    match c {
        CellValue::Int(v) => Option::Some(*v),
        _ => Option::None,
    }
}

pub fn cell_opt_i64(c: &CellValue) -> (r: Option<Option<i64>>)
    ensures
        r == cellv_opt_i64(c@),
{
    match c {
        CellValue::Null => Option::Some(Option::None),
        CellValue::Int(v) => Option::Some(Option::Some(*v)),
        _ => Option::None,
    }
}

pub fn cell_u64(c: &CellValue) -> (r: Option<u64>)
    ensures
        r == cellv_u64(c@),
{
    match c {
        CellValue::Int(v) => if *v >= 0 {
            Option::Some(*v as u64)
        } else {
            Option::None
        },
        _ => Option::None,
    }
}

pub fn cell_opt_u64(c: &CellValue) -> (r: Option<Option<u64>>)
    ensures
        r == cellv_opt_u64(c@),
{
    match c {
        CellValue::Null => Option::Some(Option::None),
        CellValue::Int(v) => if *v >= 0 {
            Option::Some(Option::Some(*v as u64))
        } else {
            Option::None
        },
        _ => Option::None,
    }
}

pub fn cell_bool(c: &CellValue) -> (r: Option<bool>)
    ensures
        r == cellv_bool(c@),
{
    match c {
        CellValue::Int(v) => if *v == 0 {
            Option::Some(false)
        } else if *v == 1 {
            Option::Some(true)
        } else {
            Option::None
        },
        _ => Option::None,
    }
}

pub fn cell_opt_bool(c: &CellValue) -> (r: Option<Option<bool>>)
    ensures
        r == cellv_opt_bool(c@),
{
    match c {
        CellValue::Null => Option::Some(Option::None),
        CellValue::Int(v) => if *v == 0 {
            Option::Some(Option::Some(false))
        } else if *v == 1 {
            Option::Some(Option::Some(true))
        } else {
            Option::None
        },
        _ => Option::None,
    }
}

} // verus!
