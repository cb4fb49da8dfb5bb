//! Loading a formation from delimited text: one face per row, columns
//! `x, y, z, side, rotation`. The first row is a header row and carries no
//! face. Any malformed row aborts loading with an error naming the row.

use vstd::prelude::*;
use crate::formation::{BlockFace, Side};

verus! {

/// Why a formation description was rejected.
#[derive(PartialEq, Eq, Structural, Clone, Copy, Debug)]
pub enum LoadError {
    /// The delimited text itself could not be split into records.
    Syntax,
    /// A record does not have exactly five columns.
    ColumnCount { row: usize },
    /// A coordinate or rotation column does not hold an integer that fits
    /// the expected width.
    IntField { row: usize, column: usize },
    /// The side column holds none of the six side names.
    SideField { row: usize },
    /// The rotation is an integer but not one of the four quarter turns.
    RotationRange { row: usize },
}

/// Whether a byte is a decimal digit.
pub open spec fn is_digit(b: u8) -> bool {
    48 <= b <= 57
}

/// Whether every byte of the token is a decimal digit.
pub open spec fn all_digits(s: Seq<u8>) -> bool {
    forall|i: int| 0 <= i < s.len() ==> is_digit(#[trigger] s[i])
}

/// The value of a sequence of decimal digits, most significant first.
pub open spec fn digits_val(s: Seq<u8>) -> int
    decreases s.len(),
{
    if s.len() == 0 {
        0
    } else {
        digits_val(s.drop_last()) * 10 + (s.last() - 48)
    }
}

/// The integer a token denotes: an optional sign followed by at least one
/// digit and nothing else.
pub open spec fn int_token_val(s: Seq<u8>) -> Option<int> {
    if s.len() > 0 && (s[0] == 43 || s[0] == 45) {
        if s.len() > 1 && all_digits(s.subrange(1, s.len() as int)) {
            if s[0] == 45 {
                Some(-digits_val(s.subrange(1, s.len() as int)))
            } else {
                Some(digits_val(s.subrange(1, s.len() as int)))
            }
        } else {
            None
        }
    } else if s.len() > 0 && all_digits(s) {
        Some(digits_val(s))
    } else {
        None
    }
}

/// The integer a token denotes, when it also fits in an `i64`.
pub open spec fn i64_token(s: Seq<u8>) -> Option<int> {
    match int_token_val(s) {
        Some(v) => if i64::MIN <= v <= i64::MAX {
            Some(v)
        } else {
            None
        },
        None => None,
    }
}

/// A digit string denotes a value that is never negative.
proof fn lemma_digits_val_nonneg(s: Seq<u8>)
    requires
        all_digits(s),
    ensures
        digits_val(s) >= 0,
    decreases s.len(),
{
    if s.len() > 0 {
        assert(all_digits(s.drop_last()));
        lemma_digits_val_nonneg(s.drop_last());
    }
}

/// Extending a digit string to the right never shrinks its value.
proof fn lemma_digits_prefix_le(s: Seq<u8>, a: int, i: int, j: int)
    requires
        0 <= a <= i <= j <= s.len(),
        forall|k: int| a <= k < j ==> is_digit(#[trigger] s[k]),
    ensures
        digits_val(s.subrange(a, i)) <= digits_val(s.subrange(a, j)),
    decreases j - i,
{
    if i < j {
        lemma_digits_prefix_le(s, a, i, j - 1);
        assert(s.subrange(a, j).drop_last() =~= s.subrange(a, j - 1));
        assert(all_digits(s.subrange(a, j - 1)));
        lemma_digits_val_nonneg(s.subrange(a, j - 1));
    }
}

/// Parses a decimal integer token, exactly as `i64_token` says: an
/// optional sign, then one or more digits, the value within `i64`.
pub fn parse_i64(s: &[u8]) -> (r: Option<i64>)
    ensures
        match r {
            Some(v) => i64_token(s@) == Some(v as int),
            None => i64_token(s@) is None,
        },
{
    let n = s.len();
    if n == 0 {
        return None;
    }
    let first = s[0];
    let neg = first == 45;
    let start: usize = if first == 45 || first == 43 {
        1
    } else {
        0
    };
    if n == start {
        return None;
    }
    let mut mag: u128 = 0;
    let mut i = start;
    while i < n
        invariant
            start <= i <= n,
            start < n,
            n == s@.len(),
            start == 0 || start == 1,
            (start == 1) == (s@[0] == 43 || s@[0] == 45),
            neg == (s@[0] == 45),
            forall|k: int| start <= k < i ==> is_digit(#[trigger] s@[k]),
            mag == digits_val(s@.subrange(start as int, i as int)),
            mag <= 9223372036854775808,
        decreases n - i,
    {
        let b = s[i];
        if b < 48 || b > 57 {
            proof {
                if start == 1 {
                    assert(s@.subrange(1, n as int)[i - 1] == s@[i as int]);
                    assert(!all_digits(s@.subrange(1, n as int)));
                } else {
                    assert(!all_digits(s@));
                }
            }
            return None;
        }
        proof {
            assert(s@.subrange(start as int, (i + 1) as int).drop_last() =~= s@.subrange(
                start as int,
                i as int,
            ));
            assert(s@.subrange(start as int, (i + 1) as int).last() == s@[i as int]);
        }
        mag = mag * 10 + ((b - 48) as u128);
        i = i + 1;
        if mag > 9223372036854775808 {
            proof {
                if forall|k: int| i <= k < n ==> is_digit(#[trigger] s@[k]) {
                    lemma_digits_prefix_le(s@, start as int, i as int, n as int);
                    if start == 1 {
                        assert(s@.subrange(1, n as int) =~= s@.subrange(start as int, n as int));
                    } else {
                        assert(s@.subrange(0, n as int) =~= s@);
                    }
                } else {
                    let k = choose|k: int| i <= k < n && !is_digit(#[trigger] s@[k]);
                    if start == 1 {
                        assert(s@.subrange(1, n as int)[k - 1] == s@[k]);
                        assert(!all_digits(s@.subrange(1, n as int)));
                    } else {
                        assert(!all_digits(s@));
                    }
                }
            }
            return None;
        }
    }
    proof {
        if start == 1 {
            assert(s@.subrange(1, n as int) =~= s@.subrange(start as int, n as int));
        } else {
            assert(s@.subrange(0, n as int) =~= s@);
        }
    }
    if neg {
        if mag == 9223372036854775808 {
            return Some(i64::MIN);
        }
        return Some(-(mag as i64));
    }
    if mag == 9223372036854775808 {
        return None;
    }
    Some(mag as i64)
}

/// The side a token names, if it is exactly one of the six side names.
pub open spec fn side_token(s: Seq<u8>) -> Option<Side> {
    if s == seq![84u8, 79u8, 80u8] {  // TOP
        Some(Side::TOP)
    } else if s == seq![66u8, 79u8, 84u8, 84u8, 79u8, 77u8] {  // BOTTOM
        Some(Side::BOTTOM)
    } else if s == seq![87u8, 69u8, 83u8, 84u8] {  // WEST
        Some(Side::WEST)
    } else if s == seq![69u8, 65u8, 83u8, 84u8] {  // EAST
        Some(Side::EAST)
    } else if s == seq![83u8, 79u8, 85u8, 84u8, 72u8] {  // SOUTH
        Some(Side::SOUTH)
    } else if s == seq![78u8, 79u8, 82u8, 84u8, 72u8] {  // NORTH
        Some(Side::NORTH)
    } else {
        None
    }
}

/// Recognises the six case-sensitive side names, exactly as `side_token`
/// says.
pub fn side_of(s: &[u8]) -> (r: Option<Side>)
    ensures
        r == side_token(s@),
{
    if s.len() == 3 && s[0] == 84 && s[1] == 79 && s[2] == 80 {
        proof {
            assert(s@ =~= seq![84u8, 79u8, 80u8]);
        }
        Some(Side::TOP)
    } else if s.len() == 6 && s[0] == 66 && s[1] == 79 && s[2] == 84 && s[3] == 84 && s[4] == 79
        && s[5] == 77 {
        proof {
            assert(s@ =~= seq![66u8, 79u8, 84u8, 84u8, 79u8, 77u8]);
        }
        Some(Side::BOTTOM)
    } else if s.len() == 4 && s[0] == 87 && s[1] == 69 && s[2] == 83 && s[3] == 84 {
        proof {
            assert(s@ =~= seq![87u8, 69u8, 83u8, 84u8]);
        }
        Some(Side::WEST)
    } else if s.len() == 4 && s[0] == 69 && s[1] == 65 && s[2] == 83 && s[3] == 84 {
        proof {
            assert(s@ =~= seq![69u8, 65u8, 83u8, 84u8]);
        }
        Some(Side::EAST)
    } else if s.len() == 5 && s[0] == 83 && s[1] == 79 && s[2] == 85 && s[3] == 84 && s[4] == 72 {
        proof {
            assert(s@ =~= seq![83u8, 79u8, 85u8, 84u8, 72u8]);
        }
        Some(Side::SOUTH)
    } else if s.len() == 5 && s[0] == 78 && s[1] == 79 && s[2] == 82 && s[3] == 84 && s[4] == 72 {
        proof {
            assert(s@ =~= seq![78u8, 79u8, 82u8, 84u8, 72u8]);
        }
        Some(Side::NORTH)
    } else {
        None
    }
}

/// What one record of the formation description denotes: a face, or the
/// first problem found reading its columns in order.
pub open spec fn parse_record_spec(rec: Seq<Seq<u8>>, row: int) -> Result<BlockFace, LoadError> {
    if rec.len() != 5 {
        Err(LoadError::ColumnCount { row: row as usize })
    } else {
        match i64_token(rec[0]) {
            None => Err(LoadError::IntField { row: row as usize, column: 0 }),
            Some(x) => match i64_token(rec[1]) {
                None => Err(LoadError::IntField { row: row as usize, column: 1 }),
                Some(y) => match i64_token(rec[2]) {
                    None => Err(LoadError::IntField { row: row as usize, column: 2 }),
                    Some(z) => match side_token(rec[3]) {
                        None => Err(LoadError::SideField { row: row as usize }),
                        Some(side) => match i64_token(rec[4]) {
                            None => Err(LoadError::IntField { row: row as usize, column: 4 }),
                            Some(rot) => if 0 <= rot <= 3 {
                                Ok(
                                    BlockFace {
                                        x: x as i64,
                                        y: y as i64,
                                        z: z as i64,
                                        side,
                                        rotation: rot as i32,
                                    },
                                )
                            } else {
                                Err(LoadError::RotationRange { row: row as usize })
                            },
                        },
                    },
                },
            },
        }
    }
}

/// Turns one record into a face, exactly as `parse_record_spec` says.
pub fn parse_record(rec: &Vec<Vec<u8>>, row: usize) -> (r: Result<BlockFace, LoadError>)
    ensures
        r == parse_record_spec(rec.deep_view(), row as int),
{
    proof {
        assert(rec.deep_view().len() == rec@.len());
        assert forall|i: int| 0 <= i < rec@.len() implies #[trigger] rec.deep_view()[i]
            == rec@[i]@ by {
            assert(rec.deep_view()[i] =~= rec@[i]@);
        }
    }
    if rec.len() != 5 {
        return Err(LoadError::ColumnCount { row });
    }
    let x = match parse_i64(rec[0].as_slice()) {
        None => {
            return Err(LoadError::IntField { row, column: 0 });
        },
        Some(v) => v,
    };
    let y = match parse_i64(rec[1].as_slice()) {
        None => {
            return Err(LoadError::IntField { row, column: 1 });
        },
        Some(v) => v,
    };
    let z = match parse_i64(rec[2].as_slice()) {
        None => {
            return Err(LoadError::IntField { row, column: 2 });
        },
        Some(v) => v,
    };
    let side = match side_of(rec[3].as_slice()) {
        None => {
            return Err(LoadError::SideField { row });
        },
        Some(s) => s,
    };
    let rot = match parse_i64(rec[4].as_slice()) {
        None => {
            return Err(LoadError::IntField { row, column: 4 });
        },
        Some(v) => v,
    };
    if 0 <= rot && rot <= 3 {
        Ok(BlockFace { x, y, z, side, rotation: rot as i32 })
    } else {
        Err(LoadError::RotationRange { row })
    }
}

/// What the records from row `i` onward denote: the faces in order, or
/// the first row's problem.
pub open spec fn parse_rows_spec(recs: Seq<Seq<Seq<u8>>>, i: int) -> Result<
    Seq<BlockFace>,
    LoadError,
>
    decreases recs.len() - i,
{
    if i < 0 || i >= recs.len() {
        Ok(Seq::empty())
    } else {
        match parse_record_spec(recs[i], i) {
            Err(e) => Err(e),
            Ok(f) => match parse_rows_spec(recs, i + 1) {
                Err(e) => Err(e),
                Ok(rest) => Ok(seq![f] + rest),
            },
        }
    }
}

/// What a whole formation description denotes.
pub open spec fn parse_formation_spec(recs: Seq<Seq<Seq<u8>>>) -> Result<Seq<BlockFace>, LoadError> {
    parse_rows_spec(recs, 0)
}

/// Prefixing already-parsed faces onto the outcome of the remaining rows.
spec fn with_prefix(prefix: Seq<BlockFace>, r: Result<Seq<BlockFace>, LoadError>) -> Result<
    Seq<BlockFace>,
    LoadError,
> {
    match r {
        Ok(rest) => Ok(prefix + rest),
        Err(e) => Err(e),
    }
}

/// Turns the records into a formation, in order, stopping at the first
/// malformed record, exactly as `parse_formation_spec` says.
pub fn parse_formation(records: &Vec<Vec<Vec<u8>>>) -> (r: Result<Vec<BlockFace>, LoadError>)
    ensures
        match r {
            Ok(v) => parse_formation_spec(records.deep_view()) == Ok::<
                Seq<BlockFace>,
                LoadError,
            >(v@),
            Err(e) => parse_formation_spec(records.deep_view()) == Err::<
                Seq<BlockFace>,
                LoadError,
            >(e),
        },
{
    let ghost rdv = records.deep_view();
    proof {
        assert(rdv.len() == records@.len());
        if parse_rows_spec(rdv, 0) is Ok {
            assert(Seq::<BlockFace>::empty() + parse_rows_spec(rdv, 0)->Ok_0 =~= parse_rows_spec(
                rdv,
                0,
            )->Ok_0);
        }
    }
    let n = records.len();
    let mut faces: Vec<BlockFace> = Vec::new();
    let mut i: usize = 0;
    while i < n
        invariant
            0 <= i <= n,
            n == records@.len(),
            rdv == records.deep_view(),
            rdv.len() == n,
            parse_rows_spec(rdv, 0) == with_prefix(faces@, parse_rows_spec(rdv, i as int)),
        decreases n - i,
    {
        proof {
            assert(rdv[i as int] == records@[i as int].deep_view());
        }
        match parse_record(&records[i], i) {
            Err(e) => {
                return Err(e);
            },
            Ok(face) => {
                proof {
                    if parse_rows_spec(rdv, i + 1) is Ok {
                        let rest = parse_rows_spec(rdv, i + 1)->Ok_0;
                        assert(faces@ + (seq![face] + rest) =~= faces@.push(face) + rest);
                    }
                }
                faces.push(face);
            },
        }
        i = i + 1;
    }
    proof {
        assert(faces@ + Seq::<BlockFace>::empty() =~= faces@);
    }
    Ok(faces)
}

/// The error the csv crate reports when it cannot split the text.
#[verifier::external_type_specification]
#[verifier::external_body]
pub struct ExCsvError(csv::Error);

/// The records that delimited text splits into, column by column — or
/// nothing, when the text is not well-formed delimited data. Splitting is
/// a function of the bytes alone; the first row is a header row and is
/// not among the records.
pub uninterp spec fn csv_fields_of(text: Seq<u8>) -> Option<Seq<Seq<Seq<u8>>>>;

/// Relies on csv::ReaderBuilder and csv::StringRecord (csv 1.4, default
/// configuration): reading records from a byte slice splits the text
/// after the header row into rows and comma-separated fields, a pure
/// function of the input bytes, and reports an error on text it cannot
/// split (bad quoting, invalid UTF-8, uneven row lengths).
#[verifier::external_body]
fn split_csv(text: &[u8]) -> (r: Result<Vec<Vec<Vec<u8>>>, csv::Error>)
    ensures
        match r {
            Ok(recs) => csv_fields_of(text@) == Some(recs.deep_view()),
            Err(_) => csv_fields_of(text@) is None,
        },
{
    let mut rdr = csv::ReaderBuilder::new().from_reader(text);
    let mut out: Vec<Vec<Vec<u8>>> = Vec::new();
    for rec in rdr.records() {
        let rec = rec?;
        out.push(rec.iter().map(|field| field.as_bytes().to_vec()).collect());
    }
    Ok(out)
}

/// Loads a formation from delimited text: splits the text into records,
/// then reads the five columns of every record in order. The whole text
/// is validated before any face is handed out; the first problem aborts
/// the load.
pub fn load_formation(text: &[u8]) -> (r: Result<Vec<BlockFace>, LoadError>)
    ensures
        match csv_fields_of(text@) {
            Some(recs) => match r {
                Ok(v) => parse_formation_spec(recs) == Ok::<Seq<BlockFace>, LoadError>(v@),
                Err(e) => parse_formation_spec(recs) == Err::<Seq<BlockFace>, LoadError>(e),
            },
            None => r == Err::<Vec<BlockFace>, LoadError>(LoadError::Syntax),
        },
{
    match split_csv(text) {
        Err(_) => Err(LoadError::Syntax),
        Ok(recs) => parse_formation(&recs),
    }
}

} // verus!
