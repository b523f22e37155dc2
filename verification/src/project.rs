//! Projecting a record onto the declared columns.
//!
//! The engine does not read timestamps itself. For each timestamp column
//! whose value is a string, `timestamp_texts` hands out the text; the caller
//! has it parsed and hands back, column by column, the instant or `None`.

use crate::column::{coerce, coerced, Cell, CellView, Column, ColumnKind};
use crate::error::{Failure, ScanError};
use crate::json::Json;
use crate::resolve::{resolve, resolve_column};
use vstd::prelude::*;

verus! {

/// The text that the timestamp parser is to read for `column`: the value of
/// a timestamp column, where it is a string.
pub open spec fn timestamp_text(record: Json, column: Column) -> Option<Seq<char>> {
    match (column.kind, resolve(record, column.name@)) {
        (ColumnKind::Timestamp, Some(Json::String(text))) => Some(text@),
        _ => None,
    }
}

/// The entry of `instants` for the column at `index`; `None` where the list
/// is too short to have one.
pub open spec fn instant_at(instants: Seq<Option<i64>>, index: int) -> Option<i64> {
    if 0 <= index < instants.len() {
        instants[index]
    } else {
        None
    }
}

/// The cell that `record` gives for `column`, or the failure: the column is
/// not found, or its value cannot become a cell of the declared kind.
pub open spec fn projected_cell(record: Json, column: Column, instant: Option<i64>) -> Result<
    CellView,
    Failure,
> {
    match resolve(record, column.name@) {
        None => Err(Failure::ColumnNotFound(column.name@)),
        Some(value) => match coerced(value, column.kind, instant) {
            Some(cell) => Ok(cell),
            None => Err(
                Failure::Coercion { column: column.name@, kind: column.kind.label() },
            ),
        },
    }
}

/// The row that `record` gives for `columns`, one cell for each column in
/// order, or the failure of the first column that fails.
pub open spec fn projected_row(
    record: Json,
    columns: Seq<Column>,
    instants: Seq<Option<i64>>,
) -> Result<Seq<CellView>, Failure>
    decreases columns.len(),
{
    if columns.len() == 0 {
        Ok(Seq::empty())
    } else {
        match projected_row(record, columns.drop_last(), instants) {
            Err(failure) => Err(failure),
            Ok(cells) => match projected_cell(
                record,
                columns.last(),
                instant_at(instants, columns.len() - 1),
            ) {
                Err(failure) => Err(failure),
                Ok(cell) => Ok(cells.push(cell)),
            },
        }
    }
}

/// The cells of a row as the contracts speak of them.
pub open spec fn row_view(cells: Seq<Cell>) -> Seq<CellView> {
    cells.map_values(|cell: Cell| cell@)
}

/// The texts that the contracts speak of, one for each entry.
pub open spec fn texts_view(texts: Seq<Option<String>>) -> Seq<Option<Seq<char>>> {
    texts.map_values(
        |text: Option<String>|
            match text {
                Some(t) => Some(t@),
                None => None,
            },
    )
}

/// The texts that the timestamp parser is to read for `columns`, column by
/// column.
pub open spec fn requested_texts(record: Json, columns: Seq<Column>) -> Seq<Option<Seq<char>>> {
    columns.map_values(|column: Column| timestamp_text(record, column))
}

/// Lists, for each column, the text that the timestamp parser is to read.
pub fn timestamp_texts(record: &Json, columns: &Vec<Column>) -> (texts: Vec<Option<String>>)
    ensures
        texts_view(texts@) == requested_texts(*record, columns@),
{
    let mut texts: Vec<Option<String>> = Vec::new();
    let mut i: usize = 0;
    while i < columns.len()
        invariant
            i <= columns@.len(),
            texts@.len() == i,
            texts_view(texts@) == requested_texts(*record, columns@.take(i as int)),
        decreases columns@.len() - i,
    {
        let column = &columns[i];
        let text = match column.kind {
            ColumnKind::Timestamp => match resolve_column(record, column.name.as_str()) {
                Some(Json::String(text)) => Some(text.clone()),
                _ => None,
            },
            _ => None,
        };
        let ghost before = texts@;
        texts.push(text);
        proof {
            let wanted = requested_texts(*record, columns@.take(i + 1));
            assert forall|k: int| 0 <= k < wanted.len() implies texts_view(texts@)[k]
                == wanted[k] by {
                if k < i {
                    assert(texts_view(texts@)[k] == texts_view(before)[k]);
                }
            }
        }
        i = i + 1;
    }
    texts
}

/// Projects `record` onto one column.
pub fn project_cell(record: &Json, column: &Column, instant: Option<i64>) -> (outcome: Result<
    Cell,
    ScanError,
>)
    ensures
        match outcome {
            Ok(cell) => projected_cell(*record, *column, instant) == Ok::<CellView, Failure>(
                cell@,
            ),
            Err(error) => projected_cell(*record, *column, instant) == Err::<CellView, Failure>(
                error@,
            ),
        },
{
    match resolve_column(record, column.name.as_str()) {
        None => Err(ScanError::ColumnNotFound(column.name.clone())),
        Some(value) => match coerce(value, &column.kind, instant) {
            Some(cell) => Ok(cell),
            None => Err(
                ScanError::Coercion { column: column.name.clone(), kind: column.kind.name() },
            ),
        },
    }
}

/// Projects `record` onto `columns`. `instants` holds, for each column, what
/// the timestamp parser made of the text that `timestamp_texts` lists for
/// it; an entry that is missing counts as a refusal.
pub fn project_row(record: &Json, columns: &Vec<Column>, instants: &Vec<Option<i64>>) -> (outcome:
    Result<Vec<Cell>, ScanError>)
    ensures
        match outcome {
            Ok(cells) => projected_row(*record, columns@, instants@) == Ok::<
                Seq<CellView>,
                Failure,
            >(row_view(cells@)),
            Err(error) => projected_row(*record, columns@, instants@) == Err::<
                Seq<CellView>,
                Failure,
            >(error@),
        },
{
    let mut cells: Vec<Cell> = Vec::new();
    let mut i: usize = 0;
    assert(row_view(cells@) == Seq::<CellView>::empty());
    while i < columns.len()
        invariant
            i <= columns@.len(),
            projected_row(*record, columns@.take(i as int), instants@) == Ok::<
                Seq<CellView>,
                Failure,
            >(row_view(cells@)),
        decreases columns@.len() - i,
    {
        let instant = if i < instants.len() {
            instants[i]
        } else {
            None
        };
        proof {
            let upto = columns@.take(i + 1);
            assert(upto.drop_last() == columns@.take(i as int));
        }
        match project_cell(record, &columns[i], instant) {
            Err(error) => {
                proof {
                    lemma_failure_stays(record, columns@, instants@, i + 1);
                }
                return Err(error);
            },
            Ok(cell) => {
                let ghost before = cells@;
                cells.push(cell);
                assert(row_view(cells@) == row_view(before).push(cell@));
            },
        }
        i = i + 1;
    }
    assert(columns@.take(i as int) == columns@);
    Ok(cells)
}

/// A row is whole or it is not there: it has the cell of every column, each
/// in its column's place, or it fails as the first column that fails does.
pub proof fn lemma_row_is_whole(
    record: Json,
    columns: Seq<Column>,
    instants: Seq<Option<i64>>,
)
    ensures
        match projected_row(record, columns, instants) {
            Ok(cells) => cells.len() == columns.len() && forall|i: int|
                0 <= i < columns.len() ==> projected_cell(
                    record,
                    #[trigger] columns[i],
                    instant_at(instants, i),
                ) == Ok::<CellView, Failure>(cells[i]),
            Err(failure) => exists|i: int|
                0 <= i < columns.len() && projected_cell(
                    record,
                    #[trigger] columns[i],
                    instant_at(instants, i),
                ) == Err::<CellView, Failure>(failure) && forall|j: int|
                    0 <= j < i ==> projected_cell(
                        record,
                        #[trigger] columns[j],
                        instant_at(instants, j),
                    ) is Ok,
        },
    decreases columns.len(),
{
    if columns.len() > 0 {
        let front = columns.drop_last();
        let last = columns.len() - 1;
        lemma_row_is_whole(record, front, instants);
        assert forall|i: int| 0 <= i < last implies front[i] == columns[i] by {}
        match projected_row(record, front, instants) {
            Ok(cells) => {
                match projected_cell(record, columns.last(), instant_at(instants, last)) {
                    Ok(cell) => {
                        let row = cells.push(cell);
                        assert forall|i: int| 0 <= i < columns.len() implies projected_cell(
                            record,
                            #[trigger] columns[i],
                            instant_at(instants, i),
                        ) == Ok::<CellView, Failure>(row[i]) by {}
                    },
                    Err(failure) => {
                        assert forall|j: int| 0 <= j < last implies projected_cell(
                            record,
                            #[trigger] columns[j],
                            instant_at(instants, j),
                        ) is Ok by {}
                        assert(projected_cell(
                            record,
                            columns[last],
                            instant_at(instants, last),
                        ) == Err::<CellView, Failure>(failure));
                    },
                }
            },
            Err(failure) => {
                let i = choose|i: int|
                    0 <= i < front.len() && projected_cell(
                        record,
                        #[trigger] front[i],
                        instant_at(instants, i),
                    ) == Err::<CellView, Failure>(failure) && forall|j: int|
                        0 <= j < i ==> projected_cell(
                            record,
                            #[trigger] front[j],
                            instant_at(instants, j),
                        ) is Ok;
                assert forall|j: int| 0 <= j < i implies projected_cell(
                    record,
                    #[trigger] columns[j],
                    instant_at(instants, j),
                ) is Ok by {}
            },
        }
    }
}

/// A row that fails on its first `upto` columns fails in the same way on
/// all of them.
pub proof fn lemma_failure_stays(
    record: &Json,
    columns: Seq<Column>,
    instants: Seq<Option<i64>>,
    upto: int,
)
    requires
        0 <= upto <= columns.len(),
        projected_row(*record, columns.take(upto), instants) is Err,
    ensures
        projected_row(*record, columns, instants) == projected_row(
            *record,
            columns.take(upto),
            instants,
        ),
    decreases columns.len() - upto,
{
    if upto < columns.len() {
        let next = columns.take(upto + 1);
        assert(next.drop_last() == columns.take(upto));
        lemma_failure_stays(record, columns, instants, upto + 1);
    } else {
        assert(columns.take(upto) == columns);
    }
}

} // verus!
