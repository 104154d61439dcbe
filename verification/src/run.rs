use vstd::prelude::*;
use vstd::string::*;
use crate::error::PlinkError;
use crate::error::PlinkErrorView;
use crate::error::join;
use crate::error::unit_view;
use crate::remote::json_text;
use crate::remote::json_text_at;
use crate::remote::success_code;
use crate::remote::is_success;
use crate::table::csv_rows;
use crate::table::picked;
use crate::table::read_columns;
use crate::table::rows_view;
use crate::table::triples_view;

verus! {

/// What a creation run is started with.
#[derive(Debug, Clone, PartialEq, Eq)]
pub struct RunCommand {
    pub debug: bool,
    pub input: String,
    pub output: String,
    pub api_key: String,
}

/// What `validate_file_paths` answers, given which of the two paths exist.
pub open spec fn paths_answer(
    input: Seq<char>,
    input_exists: bool,
    output: Seq<char>,
    output_exists: bool,
) -> Result<(), PlinkErrorView> {
    if !input_exists {
        Err(PlinkErrorView::NotFound(input))
    } else if output_exists {
        Err(PlinkErrorView::AlreadyExists(output))
    } else {
        Ok(())
    }
}

/// Decides whether a creation run may start: the input has to be there, and
/// the output must not be, since earlier output is never overwritten.
pub fn validate_file_paths(
    input: &str,
    input_exists: bool,
    output: &str,
    output_exists: bool,
) -> (r: Result<(), PlinkError>)
    ensures
        unit_view(r) == paths_answer(input@, input_exists, output@, output_exists),
{
    if !input_exists {
        return Err(PlinkError::NotFound(String::from_str(input)));
    }
    if output_exists {
        return Err(PlinkError::AlreadyExists(String::from_str(output)));
    }
    Ok(())
}

/// One row of the input: who owes, how much, and for what. The amount is
/// held as text: as the file has it when the row was just read, and in its
/// rendering with two decimal places once a batch is made of the rows.
#[derive(Debug, Clone, PartialEq, Eq)]
pub struct Record {
    pub name: String,
    pub amount: String,
    pub item_ordered: String,
}

/// The mathematical value of a [`Record`].
pub struct RecordView {
    pub name: Seq<char>,
    pub amount: Seq<char>,
    pub item_ordered: Seq<char>,
}

impl View for Record {
    type V = RecordView;

    open spec fn view(&self) -> RecordView {
        RecordView { name: self.name@, amount: self.amount@, item_ordered: self.item_ordered@ }
    }
}

/// An amount of money as the remote side takes it.
#[derive(Debug, Clone, PartialEq, Eq)]
pub struct Amount {
    pub currency: String,
    pub value: String,
}

/// The body of a request that creates a payment link.
#[derive(Debug, Clone, PartialEq, Eq)]
pub struct PaymentRequest {
    pub amount: Amount,
    pub description: String,
    pub redirect_url: String,
}

/// The mathematical value of a [`PaymentRequest`].
pub struct PaymentRequestView {
    pub currency: Seq<char>,
    pub value: Seq<char>,
    pub description: Seq<char>,
    pub redirect_url: Seq<char>,
}

impl View for PaymentRequest {
    type V = PaymentRequestView;

    open spec fn view(&self) -> PaymentRequestView {
        PaymentRequestView {
            currency: self.amount.currency@,
            value: self.amount.value@,
            description: self.description@,
            redirect_url: self.redirect_url@,
        }
    }
}

/// A payment link that was created for a record.
#[derive(Debug, Clone, PartialEq, Eq)]
pub struct PaymentInfo {
    pub payment_link: String,
    pub name: String,
    pub amount: String,
}

/// The mathematical value of a [`PaymentInfo`].
pub struct PaymentInfoView {
    pub payment_link: Seq<char>,
    pub name: Seq<char>,
    pub amount: Seq<char>,
}

impl View for PaymentInfo {
    type V = PaymentInfoView;

    open spec fn view(&self) -> PaymentInfoView {
        PaymentInfoView { payment_link: self.payment_link@, name: self.name@, amount: self.amount@ }
    }
}

/// The request that is sent for a record: the amount in euros, the
/// description made of the name and the item, and the fixed redirect address.
pub open spec fn request_of(record: RecordView) -> PaymentRequestView {
    PaymentRequestView {
        currency: "EUR"@,
        value: record.amount,
        description: record.name + " - "@ + record.item_ordered,
        redirect_url: "https://localhost"@,
    }
}

/// The result that is kept for a record whose link was created.
pub open spec fn info_of(record: RecordView, link: Seq<char>) -> PaymentInfoView {
    PaymentInfoView { payment_link: link, name: record.name, amount: record.amount }
}

/// Builds the request that creates the payment link of `record`.
pub fn create_payment_request(record: &Record) -> (r: PaymentRequest)
    ensures
        r@ == request_of(record@),
{
    let mut description = join(record.name.as_str(), " - ");
    description.append(record.item_ordered.as_str());
    PaymentRequest {
        amount: Amount { currency: String::from_str("EUR"), value: record.amount.clone() },
        description,
        redirect_url: String::from_str("https://localhost"),
    }
}

/// Where the created link stands in the body of a successful response.
pub open spec fn link_pointer() -> Seq<char> {
    "/_links/paymentLink/href"@
}

/// What a creation attempt came to, given the record, the status code and
/// body of the response, and the link found in the body, if any: the result
/// for the record when the status reports success and a link is there, else
/// a remote error that carries the body.
pub open spec fn created_outcome(
    record: RecordView,
    status: u16,
    body: Seq<char>,
    link: Option<Seq<char>>,
) -> Result<PaymentInfoView, PlinkErrorView> {
    if success_code(status) && link is Some {
        Ok(info_of(record, link->Some_0))
    } else {
        Err(PlinkErrorView::Remote(body))
    }
}

/// The view of what a creation attempt came to.
pub open spec fn outcome_view(r: Result<PaymentInfo, PlinkError>) -> Result<
    PaymentInfoView,
    PlinkErrorView,
> {
    match r {
        Ok(info) => Ok(info@),
        Err(e) => Err(e@),
    }
}

/// Decides what a creation attempt came to, from the response and the link
/// that was found in its body.
pub fn payment_info_from(record: &Record, status: u16, body: &str, link: Option<String>) -> (r:
    Result<PaymentInfo, PlinkError>)
    ensures
        outcome_view(r) == created_outcome(
            record@,
            status,
            body@,
            crate::remote::text_view(link),
        ),
{
    if is_success(status) {
        if let Some(href) = link {
            return Ok(
                PaymentInfo {
                    payment_link: href,
                    name: record.name.clone(),
                    amount: record.amount.clone(),
                },
            );
        }
    }
    Err(PlinkError::Remote(String::from_str(body)))
}

/// Reads the response to a creation request: success is a status from 200 to
/// 299 together with a link in the body; anything else is a remote error.
pub fn interpret_create_response(record: &Record, status: u16, body: &str) -> (r: Result<
    PaymentInfo,
    PlinkError,
>)
    ensures
        outcome_view(r) == created_outcome(
            record@,
            status,
            body@,
            json_text(body@, link_pointer()),
        ),
{
    let link = json_text_at(body, "/_links/paymentLink/href");
    payment_info_from(record, status, body, link)
}

/// The link that a response to a creation request carries: the text at the
/// link's place in the body when the status reports success, else none.
pub open spec fn response_link(status: u16, body: Seq<char>) -> Option<Seq<char>> {
    if success_code(status) {
        json_text(body, link_pointer())
    } else {
        None
    }
}

/// The results that a batch has collected once the first `outcomes.len()`
/// records were tried, where `outcomes[i]` is the link that was made for
/// record `i`, or `None` where the attempt failed. A failed record leaves no
/// trace; the others keep the order of the records.
pub open spec fn collected(records: Seq<RecordView>, outcomes: Seq<Option<Seq<char>>>) -> Seq<
    PaymentInfoView,
>
    decreases outcomes.len(),
{
    if outcomes.len() == 0 {
        Seq::empty()
    } else {
        let before = collected(records, outcomes.drop_last());
        match outcomes.last() {
            Some(link) => before.push(info_of(records[outcomes.len() - 1], link)),
            None => before,
        }
    }
}

/// How many of the attempts made a link.
pub open spec fn successes(outcomes: Seq<Option<Seq<char>>>) -> nat
    decreases outcomes.len(),
{
    if outcomes.len() == 0 {
        0
    } else {
        successes(outcomes.drop_last()) + if outcomes.last() is Some {
            1nat
        } else {
            0nat
        }
    }
}

/// A batch holds one result for each attempt that made a link, so never more
/// results than attempts.
pub proof fn lemma_collected_counts_successes(
    records: Seq<RecordView>,
    outcomes: Seq<Option<Seq<char>>>,
)
    ensures
        collected(records, outcomes).len() == successes(outcomes),
        successes(outcomes) <= outcomes.len(),
    decreases outcomes.len(),
{
    if outcomes.len() > 0 {
        lemma_collected_counts_successes(records, outcomes.drop_last());
    }
}

/// Every result of a batch is the result of one record that was tried and of
/// the link that was made for it.
pub proof fn lemma_each_info_has_source(
    records: Seq<RecordView>,
    outcomes: Seq<Option<Seq<char>>>,
    k: int,
)
    requires
        0 <= k < collected(records, outcomes).len(),
    ensures
        exists|i: int|
            0 <= i < outcomes.len() && outcomes[i] is Some && collected(records, outcomes)[k]
                == info_of(records[i], #[trigger] outcomes[i]->Some_0),
    decreases outcomes.len(),
{
    let rest = outcomes.drop_last();
    let last = outcomes.len() - 1;
    if k < collected(records, rest).len() {
        lemma_each_info_has_source(records, rest, k);
        let i = choose|i: int|
            0 <= i < rest.len() && rest[i] is Some && collected(records, rest)[k] == info_of(
                records[i],
                #[trigger] rest[i]->Some_0,
            );
        assert(outcomes[i] == rest[i]);
    } else {
        assert(outcomes[last] is Some);
        assert(collected(records, outcomes)[k] == info_of(records[last], outcomes[last]->Some_0));
    }
}

/// Where every attempt makes a link, the batch holds one result per record
/// tried, in the order of the records.
pub proof fn lemma_all_succeed(records: Seq<RecordView>, outcomes: Seq<Option<Seq<char>>>)
    requires
        forall|i: int| 0 <= i < outcomes.len() ==> outcomes[i] is Some,
    ensures
        collected(records, outcomes).len() == outcomes.len(),
        forall|i: int|
            0 <= i < outcomes.len() ==> #[trigger] collected(records, outcomes)[i] == info_of(
                records[i],
                outcomes[i]->Some_0,
            ),
    decreases outcomes.len(),
{
    if outcomes.len() > 0 {
        let rest = outcomes.drop_last();
        assert forall|i: int| 0 <= i < rest.len() implies rest[i] is Some by {
            assert(rest[i] == outcomes[i]);
        }
        lemma_all_succeed(records, rest);
        assert forall|i: int| 0 <= i < outcomes.len() implies #[trigger] collected(
            records,
            outcomes,
        )[i] == info_of(records[i], outcomes[i]->Some_0) by {
            if i < rest.len() {
                assert(rest[i] == outcomes[i]);
                assert(collected(records, outcomes)[i] == collected(records, rest)[i]);
            }
        }
    }
}

/// Where exactly one attempt fails, the batch goes on: it holds a result for
/// every other record tried, those before the failure at their own place and
/// those after it one place earlier.
pub proof fn lemma_one_failure(
    records: Seq<RecordView>,
    outcomes: Seq<Option<Seq<char>>>,
    failed: int,
)
    requires
        0 <= failed < outcomes.len(),
        outcomes[failed] is None,
        forall|i: int| 0 <= i < outcomes.len() && i != failed ==> outcomes[i] is Some,
    ensures
        collected(records, outcomes).len() == outcomes.len() - 1,
        forall|i: int|
            0 <= i < failed ==> #[trigger] collected(records, outcomes)[i] == info_of(
                records[i],
                outcomes[i]->Some_0,
            ),
        forall|i: int|
            failed < i < outcomes.len() ==> #[trigger] collected(records, outcomes)[i - 1]
                == info_of(records[i], outcomes[i]->Some_0),
    decreases outcomes.len(),
{
    let rest = outcomes.drop_last();
    let last = outcomes.len() - 1;
    if failed == last {
        assert forall|i: int| 0 <= i < rest.len() implies rest[i] is Some by {
            assert(rest[i] == outcomes[i]);
        }
        lemma_all_succeed(records, rest);
        assert(collected(records, outcomes) == collected(records, rest));
        assert forall|i: int| 0 <= i < failed implies #[trigger] collected(records, outcomes)[i]
            == info_of(records[i], outcomes[i]->Some_0) by {
            assert(rest[i] == outcomes[i]);
        }
    } else {
        assert(rest[failed] == outcomes[failed]);
        assert forall|i: int| 0 <= i < rest.len() && i != failed implies rest[i] is Some by {
            assert(rest[i] == outcomes[i]);
        }
        lemma_one_failure(records, rest, failed);
        assert(outcomes[last] is Some);
        let whole = collected(records, outcomes);
        let part = collected(records, rest);
        assert(whole == part.push(info_of(records[last], outcomes[last]->Some_0)));
        assert forall|i: int| 0 <= i < failed implies #[trigger] whole[i] == info_of(
            records[i],
            outcomes[i]->Some_0,
        ) by {
            assert(rest[i] == outcomes[i]);
            assert(whole[i] == part[i]);
        }
        assert forall|i: int| failed < i < outcomes.len() implies #[trigger] whole[i - 1]
            == info_of(records[i], outcomes[i]->Some_0) by {
            if i < last {
                assert(rest[i] == outcomes[i]);
                assert(whole[i - 1] == part[i - 1]);
            }
        }
    }
}

/// The views of a batch's records, in their order.
pub open spec fn records_view(records: Seq<Record>) -> Seq<RecordView> {
    Seq::new(records.len(), |i: int| records[i]@)
}

/// The views of the results that a batch holds, in their order.
pub open spec fn infos_view(infos: Seq<PaymentInfo>) -> Seq<PaymentInfoView> {
    Seq::new(infos.len(), |i: int| infos[i]@)
}

/// The records that the bytes of an input file hold: the fields under the
/// columns `name`, `amount_owed` and `item_ordered` of each row after the
/// header, in the order of the rows; `None` where the file cannot be decoded.
pub open spec fn input_records(data: Seq<u8>) -> Option<Seq<RecordView>> {
    match csv_rows(data) {
        Some(rows) => match picked(rows, "name"@, "amount_owed"@, "item_ordered"@) {
            Some(fields) => Some(
                Seq::new(
                    fields.len(),
                    |i: int|
                        RecordView {
                            name: fields[i].0,
                            amount: fields[i].1,
                            item_ordered: fields[i].2,
                        },
                ),
            ),
            None => None,
        },
        None => None,
    }
}

/// Decodes the bytes of an input file into its records, in file order. An
/// empty file holds no record. Any row that cannot be decoded fails the
/// whole file with a parse error.
pub fn read_csv(data: &[u8]) -> (r: Result<Vec<Record>, PlinkError>)
    ensures
        match r {
            Ok(records) => input_records(data@) == Some(records_view(records@)),
            Err(e) => e is Parse && input_records(data@) is None,
        },
{
    let fields = match read_columns(data, "name", "amount_owed", "item_ordered") {
        Ok(fields) => fields,
        Err(e) => return Err(e),
    };
    let mut records: Vec<Record> = Vec::new();
    let mut i: usize = 0;
    while i < fields.len()
        invariant
            0 <= i <= fields.len(),
            records@.len() == i,
            forall|k: int|
                0 <= k < i ==> (#[trigger] records@[k])@ == (RecordView {
                    name: fields@[k].0@,
                    amount: fields@[k].1@,
                    item_ordered: fields@[k].2@,
                }),
        decreases fields.len() - i,
    {
        let row = &fields[i];
        records.push(
            Record { name: row.0.clone(), amount: row.1.clone(), item_ordered: row.2.clone() },
        );
        i += 1;
    }
    assert(records_view(records@) =~= input_records(data@)->Some_0);
    Ok(records)
}

/// The header of the output file.
pub open spec fn output_header() -> Seq<Seq<char>> {
    seq!["Name"@, "Amount"@, "Payment Link"@]
}

/// The rows of the output file: the header, then one row per result, in the
/// order of the results.
pub open spec fn output_table(infos: Seq<PaymentInfoView>) -> Seq<Seq<Seq<char>>> {
    Seq::new(
        infos.len() + 1,
        |i: int|
            if i == 0 {
                output_header()
            } else {
                seq![infos[i - 1].name, infos[i - 1].amount, infos[i - 1].payment_link]
            },
    )
}

/// Lays the results of a batch out as the rows of the output file.
pub fn output_rows(infos: &Vec<PaymentInfo>) -> (r: Vec<Vec<String>>)
    ensures
        rows_view(r@) == output_table(infos_view(infos@)),
{
    let mut rows: Vec<Vec<String>> = Vec::new();
    let header: Vec<String> = vec![
        String::from_str("Name"),
        String::from_str("Amount"),
        String::from_str("Payment Link"),
    ];
    assert(crate::table::row_view(header@) =~= output_header());
    rows.push(header);
    let mut i: usize = 0;
    while i < infos.len()
        invariant
            0 <= i <= infos.len(),
            rows@.len() == i + 1,
            forall|k: int|
                0 <= k <= i ==> crate::table::row_view((#[trigger] rows@[k])@) == output_table(
                    infos_view(infos@),
                )[k],
        decreases infos.len() - i,
    {
        let info = &infos[i];
        let row: Vec<String> = vec![
            info.name.clone(),
            info.amount.clone(),
            info.payment_link.clone(),
        ];
        assert(crate::table::row_view(row@) =~= output_table(infos_view(infos@))[i + 1]);
        rows.push(row);
        i += 1;
    }
    assert(rows_view(rows@) =~= output_table(infos_view(infos@)));
    rows
}

} // verus!
