//! The expense reports that the service takes.

use crate::error::{Error, ErrorView};
use crate::json::Json;
use vstd::prelude::*;
use vstd::string::StringExecFns;

verus! {

/// Where the service takes requests, below its host.
pub const ENDPOINT: &'static str = "/Integration-Server/ExpensifyIntegrations";

/// One expense.
#[derive(Debug, Clone, PartialEq, Eq)]
pub struct TransactionListElement {
    /// The day of the expense, as `YYYY-MM-DD`.
    pub created: String,
    /// The code of the currency.
    pub currency: String,
    /// What the expense was for.
    pub merchant: String,
    /// The amount in hundredths of the currency; negative where it is taken
    /// back.
    pub amount: i32,
    pub category: String,
    /// The project and the tag, with a colon between them.
    pub tag: String,
    pub billable: bool,
    pub reimbursable: bool,
    pub comment: String,
}

/// The expenses of one employee.
#[derive(Debug, Clone, PartialEq, Eq)]
pub struct TransactionList {
    /// What the list holds: `expenses`.
    pub transaction_list_type: String,
    pub employee_email: String,
    pub transaction_list: Vec<TransactionListElement>,
}

/// A [`TransactionListElement`] with its texts as sequences of characters.
pub ghost struct ElementView {
    pub created: Seq<char>,
    pub currency: Seq<char>,
    pub merchant: Seq<char>,
    pub amount: int,
    pub category: Seq<char>,
    pub tag: Seq<char>,
    pub billable: bool,
    pub reimbursable: bool,
    pub comment: Seq<char>,
}

/// A [`TransactionList`] with its texts and its list as sequences.
pub ghost struct TransactionListView {
    pub transaction_list_type: Seq<char>,
    pub employee_email: Seq<char>,
    pub transaction_list: Seq<ElementView>,
}

impl View for TransactionListElement {
    type V = ElementView;

    open spec fn view(&self) -> ElementView {
        ElementView {
            created: self.created@,
            currency: self.currency@,
            merchant: self.merchant@,
            amount: self.amount as int,
            category: self.category@,
            tag: self.tag@,
            billable: self.billable,
            reimbursable: self.reimbursable,
            comment: self.comment@,
        }
    }
}

/// The views of `elements`, in order.
pub open spec fn element_views(elements: Seq<TransactionListElement>) -> Seq<ElementView> {
    Seq::new(elements.len(), |i: int| elements[i]@)
}

impl View for TransactionList {
    type V = TransactionListView;

    open spec fn view(&self) -> TransactionListView {
        TransactionListView {
            transaction_list_type: self.transaction_list_type@,
            employee_email: self.employee_email@,
            transaction_list: element_views(self.transaction_list@),
        }
    }
}

/// Whether `json` is the expense `element` as the service takes it: an
/// object of nine members, named and ordered as here.
pub open spec fn is_element_json(element: ElementView, json: Json) -> bool {
    &&& json matches Json::Object(members)
    &&& members.len() == 9
    &&& members[0].0@ == "created"@
    &&& members[0].1.is_text(element.created)
    &&& members[1].0@ == "currency"@
    &&& members[1].1.is_text(element.currency)
    &&& members[2].0@ == "merchant"@
    &&& members[2].1.is_text(element.merchant)
    &&& members[3].0@ == "amount"@
    &&& members[3].1.is_integer(element.amount)
    &&& members[4].0@ == "category"@
    &&& members[4].1.is_text(element.category)
    &&& members[5].0@ == "tag"@
    &&& members[5].1.is_text(element.tag)
    &&& members[6].0@ == "billable"@
    &&& members[6].1 == Json::Bool(element.billable)
    &&& members[7].0@ == "reimbursable"@
    &&& members[7].1 == Json::Bool(element.reimbursable)
    &&& members[8].0@ == "comment"@
    &&& members[8].1.is_text(element.comment)
}

/// Whether `json` is the expense report `list` as the service takes it: an
/// object with the members `type`, `employeeEmail` and `transactionList`,
/// the last an array of the expenses in their order.
pub open spec fn is_report_json(list: TransactionListView, json: Json) -> bool {
    &&& json matches Json::Object(members)
    &&& members.len() == 3
    &&& members[0].0@ == "type"@
    &&& members[0].1.is_text(list.transaction_list_type)
    &&& members[1].0@ == "employeeEmail"@
    &&& members[1].1.is_text(list.employee_email)
    &&& members[2].0@ == "transactionList"@
    &&& members[2].1 matches Json::Array(items)
    &&& items.len() == list.transaction_list.len()
    &&& forall|i: int|
        0 <= i < items.len() ==> is_element_json(list.transaction_list[i], #[trigger] items[i])
}

/// Whether `json` is the request that asks the service for a job of
/// `request_type` on `input`, in the name of `username`.
pub open spec fn is_request_json(
    json: Json,
    request_type: Seq<char>,
    username: Seq<char>,
    password: Seq<char>,
    input: Json,
) -> bool {
    &&& json matches Json::Object(members)
    &&& members.len() == 3
    &&& members[0].0@ == "type"@
    &&& members[0].1.is_text(request_type)
    &&& members[1].0@ == "credentials"@
    &&& members[1].1 matches Json::Object(credentials)
    &&& credentials.len() == 2
    &&& credentials[0].0@ == "partnerUserID"@
    &&& credentials[0].1.is_text(username)
    &&& credentials[1].0@ == "partnerUserSecret"@
    &&& credentials[1].1.is_text(password)
    &&& members[2].0@ == "inputSettings"@
    &&& members[2].1 == input
}

/// Whether an HTTP status, or a response code of the service, says that the
/// request went well: 200 to 299.
pub open spec fn is_success(code: int) -> bool {
    200 <= code <= 299
}

/// What is made of an answer of the service. An answer stands where the
/// HTTP status is a success and the answer holds no response code, or one
/// that is a success too. Else the request has failed, with the code that
/// says so: the response code, cut to 16 bits, or the HTTP status.
pub open spec fn verdict(status: u16, response: Json) -> Result<Json, ErrorView> {
    if !is_success(status as int) {
        Err(ErrorView::RequestFailed { status, response })
    } else {
        match response.member("responseCode"@) {
            Some(code) => match code.unsigned() {
                Some(n) => if is_success(n as int) {
                    Ok(response)
                } else {
                    Err(ErrorView::RequestFailed { status: (n % 0x10000) as u16, response })
                },
                None => Ok(response),
            },
            None => Ok(response),
        }
    }
}

/// What a checked answer holds.
pub open spec fn answer_outcome(result: Result<Json, Error>) -> Result<Json, ErrorView> {
    match result {
        Ok(response) => Ok(response),
        Err(error) => Err(error@),
    }
}

/// A member of a JSON object.
fn member(key: &str, value: Json) -> (pair: (String, Json))
    ensures
        pair.0@ == key@,
        pair.1 == value,
{
    (String::from_str(key), value)
}

impl TransactionListElement {
    /// The expense as the service takes it.
    pub fn to_json(&self) -> (json: Json)
        ensures
            is_element_json(self@, json),
    {
        let mut members: Vec<(String, Json)> = Vec::new();
        members.push(member("created", Json::text(self.created.as_str())));
        members.push(member("currency", Json::text(self.currency.as_str())));
        members.push(member("merchant", Json::text(self.merchant.as_str())));
        members.push(member("amount", Json::integer(self.amount as i64)));
        members.push(member("category", Json::text(self.category.as_str())));
        members.push(member("tag", Json::text(self.tag.as_str())));
        members.push(member("billable", Json::Bool(self.billable)));
        members.push(member("reimbursable", Json::Bool(self.reimbursable)));
        members.push(member("comment", Json::text(self.comment.as_str())));
        Json::Object(members)
    }
}

impl TransactionList {
    /// The expense report as the service takes it.
    pub fn to_json(&self) -> (json: Json)
        ensures
            is_report_json(self@, json),
    {
        let mut items: Vec<Json> = Vec::new();
        let mut i: usize = 0;
        while i < self.transaction_list.len()
            invariant
                i <= self.transaction_list.len(),
                items.len() == i,
                forall|j: int|
                    0 <= j < i ==> is_element_json(self.transaction_list[j]@, #[trigger] items[j]),
            decreases self.transaction_list.len() - i,
        {
            items.push(self.transaction_list[i].to_json());
            i += 1;
        }
        let mut members: Vec<(String, Json)> = Vec::new();
        members.push(member("type", Json::text(self.transaction_list_type.as_str())));
        members.push(member("employeeEmail", Json::text(self.employee_email.as_str())));
        members.push(member("transactionList", Json::Array(items)));
        Json::Object(members)
    }
}

/// The request that asks the service for a job of `request_type` on
/// `input`, in the name of `username`.
pub fn request_payload(request_type: &str, username: &str, password: &str, input: Json) -> (json:
    Json)
    ensures
        is_request_json(json, request_type@, username@, password@, input),
{
    let mut credentials: Vec<(String, Json)> = Vec::new();
    credentials.push(member("partnerUserID", Json::text(username)));
    credentials.push(member("partnerUserSecret", Json::text(password)));
    let mut members: Vec<(String, Json)> = Vec::new();
    members.push(member("type", Json::text(request_type)));
    members.push(member("credentials", Json::Object(credentials)));
    members.push(member("inputSettings", input));
    Json::Object(members)
}

/// Decides whether an answer of the service stands. `status` is the HTTP
/// status of the answer and `response` its body. The answer is handed back
/// where both the status and the response code in the body, if it holds
/// one, are between 200 and 299; else the request has failed, and the error
/// carries the code that says so, and the body.
pub fn check_response(status: u16, response: Json) -> (checked: Result<Json, Error>)
    ensures
        answer_outcome(checked) == verdict(status, response),
{
    if status < 200 || status > 299 {
        return Err(Error::RequestFailed { status, response });
    }
    let code = match response.get("responseCode") {
        Some(code) => code.as_u64(),
        None => None,
    };
    match code {
        Some(n) => {
            if n < 200 || n > 299 {
                Err(Error::RequestFailed { status: (n % 0x10000) as u16, response })
            } else {
                Ok(response)
            }
        },
        None => Ok(response),
    }
}

} // verus!
