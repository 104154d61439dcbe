use vstd::prelude::*;
use vstd::string::*;
use crate::error::join;
use crate::error::unit_view;
use crate::error::PlinkError;
use crate::error::PlinkErrorView;
use crate::remote::endpoint;
use crate::remote::is_success;
use crate::remote::json_text;
use crate::remote::json_text_at;
use crate::remote::success_code;
use crate::remote::text_view;
use crate::run::infos_view;
use crate::run::PaymentInfo;
use crate::run::PaymentInfoView;
use crate::table::csv_rows;
use crate::table::picked;
use crate::table::read_columns;

verus! {

/// What a status check is started with.
#[derive(Debug, Clone, PartialEq, Eq)]
pub struct CheckCommand {
    pub debug: bool,
    pub input: String,
    pub api_key: String,
}

/// What `validate_file_paths` answers, given whether the input exists.
pub open spec fn path_answer(input: Seq<char>, input_exists: bool) -> Result<(), PlinkErrorView> {
    if input_exists {
        Ok(())
    } else {
        Err(PlinkErrorView::NotFound(input))
    }
}

/// Decides whether a status check may start: the input has to be there.
pub fn validate_file_paths(input: &str, input_exists: bool) -> (r: Result<(), PlinkError>)
    ensures
        unit_view(r) == path_answer(input@, input_exists),
{
    if !input_exists {
        return Err(PlinkError::NotFound(String::from_str(input)));
    }
    Ok(())
}

/// The payment links that the bytes of an input file hold: the fields under
/// the columns `Payment Link`, `Name` and `Amount` of each row after the
/// header, in the order of the rows; `None` where the file cannot be decoded.
pub open spec fn input_links(data: Seq<u8>) -> Option<Seq<PaymentInfoView>> {
    match csv_rows(data) {
        Some(rows) => match picked(rows, "Payment Link"@, "Name"@, "Amount"@) {
            Some(fields) => Some(
                Seq::new(
                    fields.len(),
                    |i: int|
                        PaymentInfoView {
                            payment_link: fields[i].0,
                            name: fields[i].1,
                            amount: fields[i].2,
                        },
                ),
            ),
            None => None,
        },
        None => None,
    }
}

/// Decodes the bytes of an input file into the payment links made earlier,
/// in file order. An empty file holds none. Any row that cannot be decoded
/// fails the whole file with a parse error.
pub fn read_csv(data: &[u8]) -> (r: Result<Vec<PaymentInfo>, PlinkError>)
    ensures
        match r {
            Ok(infos) => input_links(data@) == Some(infos_view(infos@)),
            Err(e) => e is Parse && input_links(data@) is None,
        },
{
    let fields = match read_columns(data, "Payment Link", "Name", "Amount") {
        Ok(fields) => fields,
        Err(e) => return Err(e),
    };
    let mut infos: Vec<PaymentInfo> = Vec::new();
    let mut i: usize = 0;
    while i < fields.len()
        invariant
            0 <= i <= fields.len(),
            infos@.len() == i,
            forall|k: int|
                0 <= k < i ==> (#[trigger] infos@[k])@ == (PaymentInfoView {
                    payment_link: fields@[k].0@,
                    name: fields@[k].1@,
                    amount: fields@[k].2@,
                }),
        decreases fields.len() - i,
    {
        let row = &fields[i];
        infos.push(
            PaymentInfo { payment_link: row.0.clone(), name: row.1.clone(), amount: row.2.clone() },
        );
        i += 1;
    }
    assert(infos_view(infos@) =~= input_links(data@)->Some_0);
    Ok(infos)
}

/// The text that capture group `group` of a regular expression holds at the
/// leftmost match of `pattern` in `text`, as the `regex` crate finds it;
/// `None` where the pattern does not compile, where it matches nowhere, and
/// where the group took no part in the match.
pub uninterp spec fn regex_group(pattern: Seq<char>, text: Seq<char>, group: nat) -> Option<
    Seq<char>,
>;

/// Calls `regex::Regex::new` on the pattern, `Regex::captures` on the text
/// and `Captures::get` for the group. Trusted: the result is what
/// [`regex_group`] names. None of the calls panics.
#[verifier::external_body]
fn capture_group(pattern: &str, text: &str, group: usize) -> (r: Option<String>)
    ensures
        text_view(r) == regex_group(pattern@, text@, group as nat),
{
    let re = regex::Regex::new(pattern).ok()?;
    let captures = re.captures(text)?;
    Some(captures.get(group)?.as_str().to_string())
}

/// The shape of a hosted payment link; its one group is the link's token.
pub open spec fn link_pattern() -> Seq<char> {
    "https://paymentlink\\.mollie\\.com/payment/([\\w-]+)/"@
}

/// The token of a payment link: the first group of the link's shape.
pub open spec fn link_token(link: Seq<char>) -> Option<Seq<char>> {
    regex_group(link_pattern(), link, 1)
}

/// The view of a text or an error.
pub open spec fn text_result_view(r: Result<String, PlinkError>) -> Result<
    Seq<char>,
    PlinkErrorView,
> {
    match r {
        Ok(t) => Ok(t@),
        Err(e) => Err(e@),
    }
}

/// Turns what the link's shape captured into the token, or into the error
/// for a link of another shape.
pub fn token_from(captured: Option<String>) -> (r: Result<String, PlinkError>)
    ensures
        text_result_view(r) == match text_view(captured) {
            Some(token) => Ok::<Seq<char>, PlinkErrorView>(token),
            None => Err::<Seq<char>, PlinkErrorView>(PlinkErrorView::MalformedLink),
        },
{
    match captured {
        Some(token) => Ok(token),
        None => Err(PlinkError::MalformedLink),
    }
}

/// Extracts the token from a payment link; a link that does not have the
/// shape of a hosted payment link is malformed.
pub fn payment_link_token(link: &str) -> (r: Result<String, PlinkError>)
    ensures
        text_result_view(r) == match link_token(link@) {
            Some(token) => Ok::<Seq<char>, PlinkErrorView>(token),
            None => Err::<Seq<char>, PlinkErrorView>(PlinkErrorView::MalformedLink),
        },
{
    let captured = capture_group(
        "https://paymentlink\\.mollie\\.com/payment/([\\w-]+)/",
        link,
        1,
    );
    token_from(captured)
}

/// The address at which the status of the link with a token is asked for.
pub open spec fn status_address(token: Seq<char>) -> Seq<char> {
    endpoint() + "/pl_"@ + token
}

/// The address at which the status of the link with `token` is asked for.
pub fn status_url(token: &str) -> (r: String)
    ensures
        r@ == status_address(token@),
{
    let mut url = crate::remote::payment_links_endpoint();
    url.append("/pl_");
    url.append(token);
    url
}

/// The address to ask for the status of a payment link, or the error for a
/// malformed link, for which nothing is asked.
pub fn status_request(link: &str) -> (r: Result<String, PlinkError>)
    ensures
        text_result_view(r) == match link_token(link@) {
            Some(token) => Ok::<Seq<char>, PlinkErrorView>(status_address(token)),
            None => Err::<Seq<char>, PlinkErrorView>(PlinkErrorView::MalformedLink),
        },
{
    match payment_link_token(link) {
        Ok(token) => Ok(status_url(token.as_str())),
        Err(e) => Err(e),
    }
}

/// The status of a payment link: its identifier at the remote side, and the
/// time at which it was paid, if it was.
#[derive(Debug, Clone, PartialEq, Eq)]
pub struct PaymentRequestStatus {
    pub id: String,
    pub paid_at: Option<String>,
}

/// The mathematical value of a [`PaymentRequestStatus`].
pub struct PaymentRequestStatusView {
    pub id: Seq<char>,
    pub paid_at: Option<Seq<char>>,
}

impl View for PaymentRequestStatus {
    type V = PaymentRequestStatusView;

    open spec fn view(&self) -> PaymentRequestStatusView {
        PaymentRequestStatusView { id: self.id@, paid_at: text_view(self.paid_at) }
    }
}

/// What a status request came to, given the status code and body of the
/// response and the two texts found in the body: the link's status when the
/// code reports success and an identifier is there, else a remote error
/// that carries the body.
pub open spec fn status_outcome(
    status: u16,
    body: Seq<char>,
    id: Option<Seq<char>>,
    paid_at: Option<Seq<char>>,
) -> Result<PaymentRequestStatusView, PlinkErrorView> {
    if success_code(status) && id is Some {
        Ok(PaymentRequestStatusView { id: id->Some_0, paid_at })
    } else {
        Err(PlinkErrorView::Remote(body))
    }
}

/// The view of what a status request came to.
pub open spec fn status_result_view(r: Result<PaymentRequestStatus, PlinkError>) -> Result<
    PaymentRequestStatusView,
    PlinkErrorView,
> {
    match r {
        Ok(s) => Ok(s@),
        Err(e) => Err(e@),
    }
}

/// Decides what a status request came to, from the response and the texts
/// that were found in its body.
pub fn payment_status_from(
    status: u16,
    body: &str,
    id: Option<String>,
    paid_at: Option<String>,
) -> (r: Result<PaymentRequestStatus, PlinkError>)
    ensures
        status_result_view(r) == status_outcome(status, body@, text_view(id), text_view(paid_at)),
{
    if is_success(status) {
        if let Some(id) = id {
            return Ok(PaymentRequestStatus { id, paid_at });
        }
    }
    Err(PlinkError::Remote(String::from_str(body)))
}

/// Reads the response to a status request: success is a status code from
/// 200 to 299 together with an `id` in the body; `paidAt` may be missing.
pub fn get_payment_request_status(status: u16, body: &str) -> (r: Result<
    PaymentRequestStatus,
    PlinkError,
>)
    ensures
        status_result_view(r) == status_outcome(
            status,
            body@,
            json_text(body@, "/id"@),
            json_text(body@, "/paidAt"@),
        ),
{
    let id = json_text_at(body, "/id");
    let paid_at = json_text_at(body, "/paidAt");
    payment_status_from(status, body, id, paid_at)
}

/// The line that reports the status of a payment link.
pub open spec fn report_text(info: PaymentInfoView, status: PaymentRequestStatusView) -> Seq<
    char,
> {
    "Payment Request for "@ + info.name + " from "@ + info.amount + " (id: "@ + status.id
        + ") was paid at: "@ + match status.paid_at {
        Some(t) => t,
        None => "N/A"@,
    }
}

/// The line that reports the status of a payment link; a link that was not
/// paid has `N/A` for its time.
pub fn status_report(info: &PaymentInfo, status: &PaymentRequestStatus) -> (r: String)
    ensures
        r@ == report_text(info@, status@),
{
    let mut line = join("Payment Request for ", info.name.as_str());
    line.append(" from ");
    line.append(info.amount.as_str());
    line.append(" (id: ");
    line.append(status.id.as_str());
    line.append(") was paid at: ");
    match &status.paid_at {
        Some(t) => line.append(t.as_str()),
        None => line.append("N/A"),
    }
    line
}

} // verus!
