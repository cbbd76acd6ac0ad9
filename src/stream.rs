//! The grammar shared by every command: records, error lines and, for some
//! commands, informational lines in any order, then one mandatory exit line.
use vstd::prelude::*;

use crate::error::{ErrorKind, Item, ItemView, Message, MessageLevel, OperationError, P4Error};
use crate::parser::{error_tag, exit_tag, i32_field, info_tag, lemma_messages_not_exit, text_field};
use crate::parser;
use vstd::string::StringExecFns;

verus! {

/// The record one command reports, decoded from a fixed sequence of fields.
pub trait Record: Sized + View {
    /// The record at the start of `s`, with the input that follows it.
    spec fn spec_record(s: Seq<u8>) -> Option<(Self::V, Seq<u8>)>;

    /// Whether `info: ` lines may stand between records.
    spec fn spec_takes_info() -> bool;

    fn record<'a>(input: &'a [u8]) -> (r: Option<(&'a [u8], Self)>)
        ensures
            match r {
                Some((rest, v)) => Self::spec_record(input@) == Some((v@, rest@)),
                None => Self::spec_record(input@) is None,
            },
    ;

    fn takes_info() -> (r: bool)
        ensures
            r == Self::spec_takes_info(),
    ;

    /// A record takes up at least one byte.
    proof fn lemma_record_shrinks(s: Seq<u8>)
        ensures
            Self::spec_record(s) matches Some((_, rest)) ==> rest.len() < s.len(),
    ;

    /// No record starts with an exit line.
    proof fn lemma_record_not_exit(s: Seq<u8>)
        ensures
            Self::spec_record(s) is Some ==> i32_field(s, exit_tag()) is None,
    ;
}

pub open spec fn views<T: View>(items: Seq<Item<T>>) -> Seq<ItemView<T::V>> {
    items.map_values(|i: Item<T>| i@)
}

/// One entry at the start of `s`: a record, else an error line, else (where
/// the command has them) an informational line.
pub open spec fn spec_entry<T: Record>(s: Seq<u8>) -> Option<(ItemView<T::V>, Seq<u8>)> {
    match T::spec_record(s) {
        Some((v, rest)) => Some((ItemView::Data(v), rest)),
        None => match text_field(s, error_tag()) {
            Some((m, rest)) => Some((ItemView::Message(MessageLevel::Error, m), rest)),
            None => if T::spec_takes_info() {
                match text_field(s, info_tag()) {
                    Some((m, rest)) => Some((ItemView::Message(MessageLevel::Warning, m), rest)),
                    None => None,
                }
            } else {
                None
            },
        },
    }
}

/// The entries at the start of `s`, as many as match, and the input after them.
pub open spec fn spec_entries<T: Record>(s: Seq<u8>) -> (Seq<ItemView<T::V>>, Seq<u8>)
    decreases s.len(),
{
    match spec_entry::<T>(s) {
        Some((x, rest)) => if rest.len() < s.len() {
            let (more, end) = spec_entries::<T>(rest);
            (seq![x] + more, end)
        } else {
            (Seq::empty(), s)
        },
        None => (Seq::empty(), s),
    }
}

/// The whole stream of a command's output: its entries, then the exit entry.
/// `None` when the entries are not followed by an exit line.
pub open spec fn spec_decode<T: Record>(s: Seq<u8>) -> Option<Seq<ItemView<T::V>>> {
    let (items, rest) = spec_entries::<T>(s);
    match i32_field(rest, exit_tag()) {
        Some((code, _)) => Some(items.push(ItemView::Error(code))),
        None => None,
    }
}

fn entry<'a, T: Record>(input: &'a [u8]) -> (r: Option<(&'a [u8], Item<T>)>)
    ensures
        match r {
            Some((rest, x)) => spec_entry::<T>(input@) == Some((x@, rest@)),
            None => spec_entry::<T>(input@) is None,
        },
{
    if let Some((rest, v)) = T::record(input) {
        return Some((rest, Item::Data(v)));
    }
    if let Some((rest, e)) = parser::error(input) {
        return Some((rest, Item::Message(Message::new(MessageLevel::Error, e.msg))));
    }
    if T::takes_info() {
        if let Some((rest, i)) = parser::info(input) {
            return Some((rest, Item::Message(Message::new(MessageLevel::Warning, i.msg))));
        }
    }
    None
}

/// Decodes a command's whole output into its entries and the closing exit entry.
pub fn decode_items<T: Record>(output: &[u8]) -> (r: Option<(Vec<Item<T>>, Item<T>)>)
    ensures
        match r {
            Some((items, exit)) => spec_decode::<T>(output@) == Some(views(items@).push(exit@)),
            None => spec_decode::<T>(output@) is None,
        },
{
    let mut items: Vec<Item<T>> = Vec::new();
    let mut rest = output;
    loop
        invariant
            spec_entries::<T>(output@) == (
                views(items@) + spec_entries::<T>(rest@).0,
                spec_entries::<T>(rest@).1,
            ),
        ensures
            spec_entries::<T>(rest@) == (Seq::<ItemView<T::V>>::empty(), rest@),
        decreases rest@.len(),
    {
        match entry::<T>(rest) {
            Some((next, x)) => {
                if next.len() < rest.len() {
                    proof {
                        let (more, end) = spec_entries::<T>(next@);
                        assert(views(items@.push(x)) =~= views(items@).push(x@));
                        assert(views(items@) + spec_entries::<T>(rest@).0 =~= views(
                            items@.push(x),
                        ) + more);
                    }
                    items.push(x);
                    rest = next;
                } else {
                    break ;
                }
            },
            None => {
                break ;
            },
        }
    }
    assert(views(items@) + spec_entries::<T>(rest@).0 =~= views(items@));
    match parser::exit(rest) {
        Some((_, e)) => Some((items, Item::Error(OperationError::new(e.code)))),
        None => None,
    }
}

/// The entries of a command's output, handed out front to back, once.
pub struct ItemStream<T> {
    items: std::collections::VecDeque<Item<T>>,
}

impl<T> ItemStream<T> {
    /// The entries not yet handed out, in order.
    pub closed spec fn remaining(&self) -> Seq<Item<T>> {
        self.items@
    }

    pub fn new(items: Vec<Item<T>>) -> (r: Self)
        ensures
            r.remaining() == items@,
    {
        let mut q: std::collections::VecDeque<Item<T>> = std::collections::VecDeque::new();
        let mut items = items;
        let ghost all = items@;
        while items.len() > 0
            invariant
                items@ + q@ == all,
            decreases items@.len(),
        {
            let ghost before = items@;
            let x = items.pop().unwrap();
            q.push_front(x);
        }
        assert(q@ =~= all);
        ItemStream { items: q }
    }

    /// Hands out the next entry.
    pub fn next(&mut self) -> (r: Option<Item<T>>)
        ensures
            old(self).remaining().len() == 0 ==> r is None && final(self).remaining() == old(
                self,
            ).remaining(),
            old(self).remaining().len() > 0 ==> r == Some(old(self).remaining()[0])
                && final(self).remaining() == old(self).remaining().drop_first(),
    {
        self.items.pop_front()
    }

    /// The number of entries left, as lower and upper bound.
    pub fn size_hint(&self) -> (r: (usize, Option<usize>))
        ensures
            r.0 == self.remaining().len(),
            r.1 == Some(self.remaining().len() as usize),
    {
        let n = self.items.len();
        (n, Some(n))
    }

    /// The number of entries left.
    pub fn count(self) -> (r: usize)
        ensures
            r == self.remaining().len(),
    {
        self.items.len()
    }
}

/// Decodes a command's output into a stream; `command` describes the
/// invocation for the error's context.
pub fn decode<T: Record>(output: &[u8], command: &str) -> (r: Result<ItemStream<T>, P4Error>)
    ensures
        match r {
            Ok(s) => spec_decode::<T>(output@) == Some(views(s.remaining())),
            Err(e) => spec_decode::<T>(output@) is None && e.is_parse_failure(command@),
        },
{
    match decode_items::<T>(output) {
        Some((items, exit)) => {
            let mut items = items;
            let ghost before = items@;
            items.push(exit);
            assert(views(items@) =~= views(before).push(exit@));
            Ok(ItemStream::new(items))
        },
        None => {
            let context = String::from_str("Command: ").concat(command);
            Err(ErrorKind::ParseFailed.error().set_context(context))
        },
    }
}

proof fn lemma_entries_no_exit<T: Record>(s: Seq<u8>)
    ensures
        forall|i: int|
            0 <= i < spec_entries::<T>(s).0.len() ==> !(#[trigger] spec_entries::<T>(s).0[i] is Error),
    decreases s.len(),
{
    if let Some((x, rest)) = spec_entry::<T>(s) {
        if rest.len() < s.len() {
            lemma_entries_no_exit::<T>(rest);
            let more = spec_entries::<T>(rest).0;
            assert forall|i: int|
                0 <= i < spec_entries::<T>(s).0.len() implies !(
                #[trigger] spec_entries::<T>(s).0[i] is Error) by {
                if i > 0 {
                    assert(spec_entries::<T>(s).0[i] == more[i - 1]);
                }
            }
        }
    }
}

/// Decoding is a function of the output bytes: equal buffers give the same
/// stream, or both fail.
pub proof fn law_decode_deterministic<T: Record>(a: Seq<u8>, b: Seq<u8>)
    requires
        a == b,
    ensures
        spec_decode::<T>(a) == spec_decode::<T>(b),
{
}

/// A decoded stream ends with the exit entry, and holds no other.
pub proof fn law_exit_last<T: Record>(s: Seq<u8>)
    ensures
        spec_decode::<T>(s) matches Some(items) ==> {
            &&& items.len() >= 1
            &&& items.last() is Error
            &&& forall|i: int| 0 <= i < items.len() - 1 ==> !(#[trigger] items[i] is Error)
        },
{
    lemma_entries_no_exit::<T>(s);
    if let Some(items) = spec_decode::<T>(s) {
        let entries = spec_entries::<T>(s).0;
        assert forall|i: int| 0 <= i < items.len() - 1 implies !(#[trigger] items[i] is Error) by {
            assert(items[i] == entries[i]);
        }
    }
}

/// An entry in front of a buffer is kept in front of its stream; where the
/// rest fails to decode, the whole buffer does, and no entries are returned.
pub proof fn law_entry_then_rest<T: Record>(s: Seq<u8>)
    ensures
        spec_entry::<T>(s) matches Some((x, rest)) ==> rest.len() < s.len() ==> spec_decode::<T>(s)
            == match spec_decode::<T>(rest) {
            Some(items) => Some(seq![x] + items),
            None => None,
        },
{
    if let Some((x, rest)) = spec_entry::<T>(s) {
        if rest.len() < s.len() {
            let (more, end) = spec_entries::<T>(rest);
            if let Some((code, _)) = i32_field(end, exit_tag()) {
                assert((seq![x] + more).push(ItemView::Error(code)) =~= seq![x] + more.push(
                    ItemView::Error(code),
                ));
            }
        }
    }
}

/// Two records and an exit line decode to two data entries and the exit
/// entry, in that order.
pub proof fn law_two_records_then_exit<T: Record>(s: Seq<u8>)
    ensures
        T::spec_record(s) matches Some((v1, s2)) ==> T::spec_record(s2) matches Some((v2, s3))
            ==> i32_field(s3, exit_tag()) matches Some((code, _)) ==> spec_decode::<T>(s) == Some(
            seq![ItemView::Data(v1), ItemView::Data(v2), ItemView::Error(code)],
        ),
{
    if let Some((v1, s2)) = T::spec_record(s) {
        if let Some((v2, s3)) = T::spec_record(s2) {
            if let Some((code, _)) = i32_field(s3, exit_tag()) {
                T::lemma_record_shrinks(s);
                T::lemma_record_shrinks(s2);
                T::lemma_record_not_exit(s3);
                lemma_messages_not_exit(s3);
                assert(spec_entry::<T>(s3) is None);
                assert(spec_entries::<T>(s3) == (Seq::<ItemView<T::V>>::empty(), s3));
                assert(spec_entries::<T>(s2).0 =~= seq![ItemView::Data(v2)]);
                assert(spec_entries::<T>(s).0 =~= seq![ItemView::Data(v1), ItemView::Data(v2)]);
                assert(spec_entries::<T>(s).1 == s3);
                assert(seq![ItemView::Data(v1), ItemView::Data(v2)].push(ItemView::Error(code))
                    =~= seq![ItemView::Data(v1), ItemView::Data(v2), ItemView::Error(code)]);
            }
        }
    }
}

} // verus!
