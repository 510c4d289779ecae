//! The producer side of a streamed query: rows are marshalled one at a time
//! and handed to a bounded channel, which the caller drains.
//!
//! The channel and the network live with the caller of [`Producer::step`]:
//! it reads the next event (a row, a failure, the end of the results, or the
//! discovery that the consumer has gone), asks `step` what to do, sends what
//! `step` returns, and stops once the producer is done.

use vstd::prelude::*;
use crate::cell::Cell;
use crate::marshal::{cell_value, error_text, parse_value, MarshalError};
use crate::value::{insert_column, Columns, Record};

verus! {

/// A result row as it arrives: column names with their cells, in order.
pub type Row = Vec<(String, Cell)>;

/// The record a row converts to: its cells converted and inserted in column
/// order, or the first cell's error.
pub open spec fn row_record(row: Seq<(String, Cell)>) -> Result<Columns, MarshalError>
    decreases row.len(),
{
    if row.len() == 0 {
        Ok(Seq::empty())
    } else {
        match row_record(row.drop_last()) {
            Err(e) => Err(e),
            Ok(r) => match cell_value(row.last().1) {
                Err(e) => Err(e),
                Ok(v) => Ok(insert_column(r, row.last().0@, v)),
            },
        }
    }
}

proof fn lemma_row_error_stays(row: Seq<(String, Cell)>, k: int)
    requires
        0 <= k <= row.len(),
        row_record(row.subrange(0, k)) is Err,
    ensures
        row_record(row) == row_record(row.subrange(0, k)),
    decreases row.len() - k,
{
    if k < row.len() {
        assert(row.subrange(0, k + 1).drop_last() =~= row.subrange(0, k));
        lemma_row_error_stays(row, k + 1);
    } else {
        assert(row.subrange(0, k) =~= row);
    }
}

/// Converts every cell of a row into a record; a cell that cannot be
/// converted fails the whole row.
pub fn marshal_row(row: &Row) -> (r: Result<Record, MarshalError>)
    ensures
        match r {
            Ok(rec) => rec.wf() && row_record(row@) == Ok::<Columns, MarshalError>(rec@),
            Err(e) => row_record(row@) == Err::<Columns, MarshalError>(e),
        },
{
    let mut rec = Record::new();
    let mut i: usize = 0;
    while i < row.len()
        invariant
            0 <= i <= row.len(),
            rec.wf(),
            row_record(row@.subrange(0, i as int)) == Ok::<Columns, MarshalError>(rec@),
        decreases row.len() - i,
    {
        proof {
            assert(row@.subrange(0, i + 1).drop_last() =~= row@.subrange(0, i as int));
        }
        match parse_value(&row[i].1) {
            Ok(v) => {
                rec.insert(row[i].0.clone(), v);
            },
            Err(e) => {
                proof {
                    lemma_row_error_stays(row@, i + 1);
                }
                return Err(e);
            },
        }
        i = i + 1;
    }
    proof {
        assert(row@.subrange(0, row@.len() as int) =~= row@);
    }
    Ok(rec)
}

/// One item delivered to the consumer.
#[derive(Clone, Debug, PartialEq)]
pub enum StreamItem {
    /// The next row of the result.
    Row(Record),
    /// The query failed; no item follows.
    Failed(String),
}

/// The content of a [`StreamItem`].
pub enum ItemView {
    Row(Columns),
    Failed(Seq<char>),
}

impl View for StreamItem {
    type V = ItemView;

    open spec fn view(&self) -> ItemView {
        match self {
            StreamItem::Row(r) => ItemView::Row(r@),
            StreamItem::Failed(m) => ItemView::Failed(m@),
        }
    }
}

/// What the producer learns next.
pub enum ProducerEvent {
    /// The server sent a row.
    Row(Row),
    /// The server or the transport failed, with this message.
    Failed(String),
    /// The results are complete.
    Finished,
    /// The consumer has dropped its end of the channel.
    SinkClosed,
}

/// Whether the producer still streams.
#[derive(Clone, Copy, Debug, PartialEq, Eq, Structural)]
pub enum Producer {
    Streaming,
    Done,
}

/// The state after `ev`, and what to send to the consumer, if anything.
pub open spec fn step_spec(p: Producer, ev: ProducerEvent) -> (Producer, Option<ItemView>) {
    match p {
        Producer::Done => (Producer::Done, None),
        Producer::Streaming => match ev {
            ProducerEvent::Row(row) => match row_record(row@) {
                Ok(r) => (Producer::Streaming, Some(ItemView::Row(r))),
                Err(e) => (Producer::Done, Some(ItemView::Failed(error_text(e)))),
            },
            ProducerEvent::Failed(m) => (Producer::Done, Some(ItemView::Failed(m@))),
            ProducerEvent::Finished => (Producer::Done, None),
            ProducerEvent::SinkClosed => (Producer::Done, None),
        },
    }
}

/// The state after a run of events, and everything sent on the way, in order.
pub open spec fn run_spec(p: Producer, evs: Seq<ProducerEvent>) -> (Producer, Seq<ItemView>)
    decreases evs.len(),
{
    if evs.len() == 0 {
        (p, Seq::empty())
    } else {
        let (mid, out) = run_spec(p, evs.drop_last());
        let (next, o) = step_spec(mid, evs.last());
        (
            next,
            match o {
                Some(i) => out.push(i),
                None => out,
            },
        )
    }
}

/// The events of a run of rows.
pub open spec fn row_events(rows: Seq<Row>) -> Seq<ProducerEvent> {
    rows.map_values(|r: Row| ProducerEvent::Row(r))
}

/// The items that rows which all convert are delivered as.
pub open spec fn row_items(rows: Seq<Row>) -> Seq<ItemView> {
    rows.map_values(|r: Row| ItemView::Row(row_record(r@)->Ok_0))
}

/// A query whose K rows all convert delivers exactly K row items, in the
/// order the server sent them, and the producer is done at the end of the
/// results.
pub proof fn lemma_rows_delivered_in_order(rows: Seq<Row>)
    requires
        forall|i: int| 0 <= i < rows.len() ==> row_record(#[trigger] rows[i]@) is Ok,
    ensures
        run_spec(Producer::Streaming, row_events(rows).push(ProducerEvent::Finished)) == (
            Producer::Done,
            row_items(rows),
        ),
{
    lemma_rows_stream(rows);
    assert(row_events(rows).push(ProducerEvent::Finished).drop_last() =~= row_events(rows));
}

proof fn lemma_rows_stream(rows: Seq<Row>)
    requires
        forall|i: int| 0 <= i < rows.len() ==> row_record(#[trigger] rows[i]@) is Ok,
    ensures
        run_spec(Producer::Streaming, row_events(rows)) == (Producer::Streaming, row_items(rows)),
    decreases rows.len(),
{
    if rows.len() > 0 {
        let ps = rows.drop_last();
        assert forall|i: int| 0 <= i < ps.len() implies row_record(#[trigger] ps[i]@) is Ok by {
            assert(ps[i] == rows[i]);
        }
        lemma_rows_stream(ps);
        assert(row_events(rows).drop_last() =~= row_events(ps));
        assert(row_record(rows[rows.len() - 1]@) is Ok);
        assert(row_items(rows) =~= row_items(ps).push(ItemView::Row(row_record(rows.last()@)->Ok_0)));
    } else {
        assert(row_items(rows) =~= Seq::<ItemView>::empty());
    }
}

/// Once the consumer has gone, the producer is done and sends nothing more,
/// whatever the server still delivers.
pub proof fn lemma_closed_sink_stops(before: Seq<ProducerEvent>, after: Seq<ProducerEvent>)
    ensures
        run_spec(Producer::Streaming, before.push(ProducerEvent::SinkClosed) + after) == (
            Producer::Done,
            run_spec(Producer::Streaming, before).1,
        ),
    decreases after.len(),
{
    if after.len() == 0 {
        assert(before.push(ProducerEvent::SinkClosed) + after =~= before.push(ProducerEvent::SinkClosed));
        assert(before.push(ProducerEvent::SinkClosed).drop_last() =~= before);
    } else {
        lemma_closed_sink_stops(before, after.drop_last());
        assert((before.push(ProducerEvent::SinkClosed) + after).drop_last()
            =~= before.push(ProducerEvent::SinkClosed) + after.drop_last());
    }
}

impl Producer {
    /// Decides what the producer does on `ev`: a converted row is sent on;
    /// a row that fails to convert, or a failure of the server, is sent as
    /// the last item; the end of the results or a consumer that has gone
    /// stops the producer without sending anything.
    pub fn step(self, ev: ProducerEvent) -> (r: (Producer, Option<StreamItem>))
        ensures
            step_spec(self, ev) == (r.0, match r.1 {
                Some(it) => Some(it@),
                None => None::<ItemView>,
            }),
    {
        match self {
            Producer::Done => (Producer::Done, None),
            Producer::Streaming => match ev {
                ProducerEvent::Row(row) => match marshal_row(&row) {
                    Ok(rec) => (Producer::Streaming, Some(StreamItem::Row(rec))),
                    Err(e) => (Producer::Done, Some(StreamItem::Failed(e.message().to_owned()))),
                },
                ProducerEvent::Failed(m) => (Producer::Done, Some(StreamItem::Failed(m))),
                ProducerEvent::Finished => (Producer::Done, None),
                ProducerEvent::SinkClosed => (Producer::Done, None),
            },
        }
    }
}

} // verus!
