//! The request and response shapes of the service's interface, and the
//! validation each request is owed before any store or ledger work starts.
//! Transport, routing and serialization live outside; the decisions made on
//! the decoded values are here.

use vstd::prelude::*;
use vstd::string::StrSliceExecFns;

use crate::category::AgentCategory;
use crate::config::{MAX_ALLOWED_SELECTED_AGENTS, MAX_FILE_SIZE};
use crate::records::AgentDb;

verus! {

/// The body of an error reply.
pub struct ErrorResponse {
    pub success: bool,
    pub message: String,
    pub error_code: Option<String>,
}

/// The reply to a successful dataset upload.
pub struct DatasetUploadResponse {
    pub success: bool,
    pub message: String,
    pub file_id: Option<String>,
    pub filename: Option<String>,
    pub file_size: Option<u64>,
    pub row_count: Option<usize>,
    pub metadata: Option<DatasetMetadata>,
    pub dataset_id: i64,
}

/// Aggregate statistics over all dataset records; totals are in the same
/// fixed-point base units as the records themselves.
pub struct DatasetStatsResponse {
    pub success: bool,
    pub total_count: u64,
    pub total_price: u128,
    pub total_size: u128,
}

/// The metadata accompanying an uploaded dataset; the price is in
/// fixed-point base units.
pub struct DatasetMetadata {
    pub user_address: String,
    pub dataset_price: u128,
    pub description: String,
    pub name: String,
    pub category: AgentCategory,
}

/// One decoded dataset-upload request.
pub struct DatasetUploadRequest {
    pub file: Vec<u8>,
    pub user_address: String,
    pub dataset_price: u128,
    pub description: String,
    pub name: String,
    pub category: AgentCategory,
}

/// A request to draft a dataset's details from its content.
pub struct DatasetDetailsGenerateRequest {
    pub file: Vec<u8>,
}

/// The drafted details of a dataset.
pub struct DatasetDetailsGenerateResponse {
    pub success: bool,
    pub message: String,
    pub name: String,
    pub description: String,
    pub category: String,
}

/// The details a model drafts for a dataset.
pub struct DatasetAIDetails {
    pub name: String,
    pub description: String,
    pub category: String,
}

/// A prompt for which matching agents are sought.
pub struct GetAgentsForPromptRequest {
    pub prompt: String,
}

/// The agents able to answer a prompt.
pub struct GetAgentsForPromptResponse {
    pub agents: Vec<AgentDb>,
}

/// A request to have the named agents answer a prompt, paid for by the
/// given transaction.
pub struct GetResponseFromAgentsRequest {
    pub agent_ids: Vec<i64>,
    pub prompt: String,
    pub tx_hash: String,
}

/// The named agents' answers.
pub struct GetResponseFromAgentsResponse {
    pub agent_responses: Vec<AgentResponse>,
    pub success: bool,
}

/// One agent's answer to a prompt.
pub struct AgentResponse {
    pub agent_id: i64,
    pub prompt: String,
    pub response: String,
}

/// The filters and ordering a record listing may ask for.
pub struct AgentQueryParams {
    pub search: Option<String>,
    pub category: Option<String>,
    pub status: Option<String>,
    pub sort_by: Option<String>,
    pub sort_order: Option<String>,
}

/// One row of the record listing's store query: a record joined with its
/// owner's address.
pub struct AgentQueryResult {
    pub id: i64,
    pub name: String,
    pub description: String,
    pub price: u128,
    pub owner_id: i64,
    pub address: String,
    pub dataset_path: String,
    pub category: AgentCategory,
    pub dataset_size: u64,
    pub status: String,
    pub created_at: i64,
    pub updated_at: i64,
    pub nft_id: Option<i64>,
    pub nft_tx: Option<String>,
}

/// A user's profile: the records they own.
pub struct ProfileResponse {
    pub sucess: bool,
    pub message: String,
    pub agents: Vec<AgentDb>,
}

impl AgentQueryResult {
    /// The record a listing row denotes.
    pub fn to_agent_db(&self) -> (r: AgentDb)
        ensures
            r == (AgentDb {
                id: self.id,
                name: self.name,
                description: self.description,
                price: self.price,
                owner_id: self.owner_id,
                owner_address: self.address,
                dataset_path: self.dataset_path,
                category: self.category,
                dataset_size: self.dataset_size,
                nft_id: self.nft_id,
                nft_tx: self.nft_tx,
                status: self.status,
                created_at: self.created_at,
                updated_at: self.updated_at,
            }),
    {
        AgentDb {
            id: self.id,
            name: self.name.clone(),
            description: self.description.clone(),
            price: self.price,
            owner_id: self.owner_id,
            owner_address: self.address.clone(),
            dataset_path: self.dataset_path.clone(),
            category: self.category,
            dataset_size: self.dataset_size,
            nft_id: self.nft_id,
            nft_tx: crate::records::clone_opt_string(&self.nft_tx),
            status: self.status.clone(),
            created_at: self.created_at,
            updated_at: self.updated_at,
        }
    }
}

/// Why an answer request was rejected before any work was done.
#[derive(Clone, Copy, Debug, PartialEq, Eq, Structural)]
pub enum AnswerRequestError {
    NoTxHash,
    NoPrompt,
    NoAgents,
    TooManyAgents,
}

/// The validation an answer request is owed, in the order the checks are
/// made: a transaction hash, a prompt, at least one agent, and no more than
/// the allowed number of agents.
pub open spec fn answer_request_check(req: GetResponseFromAgentsRequest) -> Result<
    (),
    AnswerRequestError,
> {
    if req.tx_hash@.len() == 0 {
        Err(AnswerRequestError::NoTxHash)
    } else if req.prompt@.len() == 0 {
        Err(AnswerRequestError::NoPrompt)
    } else if req.agent_ids@.len() == 0 {
        Err(AnswerRequestError::NoAgents)
    } else if req.agent_ids@.len() > MAX_ALLOWED_SELECTED_AGENTS {
        Err(AnswerRequestError::TooManyAgents)
    } else {
        Ok(())
    }
}

/// Validates an answer request.
pub fn validate_answer_request(req: &GetResponseFromAgentsRequest) -> (r: Result<
    (),
    AnswerRequestError,
>)
    ensures
        r == answer_request_check(*req),
{
    if req.tx_hash.as_str().is_empty() {
        return Err(AnswerRequestError::NoTxHash);
    }
    if req.prompt.as_str().is_empty() {
        return Err(AnswerRequestError::NoPrompt);
    }
    if req.agent_ids.len() == 0 {
        return Err(AnswerRequestError::NoAgents);
    }
    if req.agent_ids.len() > MAX_ALLOWED_SELECTED_AGENTS {
        return Err(AnswerRequestError::TooManyAgents);
    }
    Ok(())
}

/// The agents whose identifiers were requested, keeping the list's order.
pub fn filter_agents_by_ids(agents: &Vec<AgentDb>, ids: &Vec<i64>) -> (r: Vec<AgentDb>)
    ensures
        r@ == crate::records::selected_rows(agents@, ids@),
{
    let n = agents.len();
    let mut out: Vec<AgentDb> = Vec::new();
    let mut k: usize = 0;
    while k < n
        invariant
            0 <= k <= n,
            n == agents@.len(),
            out@ == crate::records::selected_rows(agents@.subrange(0, k as int), ids@),
        decreases n - k,
    {
        let ghost prefix = agents@.subrange(0, k as int);
        proof {
            assert(agents@.subrange(0, k + 1).drop_last() =~= prefix);
            assert(agents@.subrange(0, k + 1).last() == agents@[k as int]);
        }
        if crate::records::contains_i64(ids, agents[k].id) {
            out.push(agents[k].duplicate());
        }
        k = k + 1;
    }
    proof {
        assert(agents@.subrange(0, n as int) =~= agents@);
    }
    out
}

/// The total size of a list of records, in base units.
pub open spec fn sum_sizes(rows: Seq<AgentDb>) -> int
    decreases rows.len(),
{
    if rows.len() == 0 {
        0
    } else {
        sum_sizes(rows.drop_last()) + rows.last().dataset_size
    }
}

/// Aggregates the dataset statistics: how many records there are and what
/// they are worth and weigh in total; the price total is capped at
/// `u128::MAX`.
pub fn compute_stats(records: &Vec<AgentDb>) -> (r: DatasetStatsResponse)
    ensures
        r.success,
        r.total_count == records@.len(),
        r.total_price == crate::payment::required_total_capped(records@),
        r.total_size == sum_sizes(records@),
{
    let total_price = crate::payment::compute_required_total(records);
    let n = records.len();
    let mut total_size: u128 = 0;
    let mut k: usize = 0;
    while k < n
        invariant
            0 <= k <= n,
            n == records@.len(),
            total_size == sum_sizes(records@.subrange(0, k as int)),
            total_size <= k * 0xffffffffffffffffu64,
        decreases n - k,
    {
        let ghost prefix = records@.subrange(0, k as int);
        proof {
            assert(records@.subrange(0, k + 1).drop_last() =~= prefix);
            assert((k + 1) * 0xffffffffffffffffu64 == k * 0xffffffffffffffffu64
                + 0xffffffffffffffffu64) by (nonlinear_arith);
            assert((k + 1) * 0xffffffffffffffffu64 <= 0xffffffffffffffffu64
                * 0xffffffffffffffffu64) by (nonlinear_arith)
                requires
                    0 <= k,
                    k + 1 <= 0xffffffffffffffffu64,
            ;
        }
        total_size = total_size + records[k].dataset_size as u128;
        k = k + 1;
    }
    proof {
        assert(records@.subrange(0, n as int) =~= records@);
    }
    DatasetStatsResponse {
        success: true,
        total_count: n as u64,
        total_price,
        total_size,
    }
}

/// The character's code with an upper-case ASCII letter folded to lower
/// case; any other character keeps its own code.
pub open spec fn lower_code(c: char) -> int {
    if 'A' <= c && c <= 'Z' {
        c as int + 32
    } else {
        c as int
    }
}

/// Equality of two strings up to ASCII case.
pub open spec fn eq_ignore_ascii_case_view(s: Seq<char>, t: Seq<char>) -> bool {
    s.len() == t.len() && forall|i: int|
        0 <= i < s.len() ==> lower_code(#[trigger] s[i]) == lower_code(t[i])
}

/// Compares two strings, folding ASCII letters' case.
#[verifier::loop_isolation(false)]
pub fn eq_ignore_ascii_case(s: &str, t: &str) -> (r: bool)
    ensures
        r == eq_ignore_ascii_case_view(s@, t@),
{
    let n = s.unicode_len();
    if n != t.unicode_len() {
        return false;
    }
    let mut i: usize = 0;
    while i < n
        invariant
            0 <= i <= n,
            forall|j: int| 0 <= j < i ==> lower_code(#[trigger] s@[j]) == lower_code(t@[j]),
        decreases n - i,
    {
        let a = s.get_char(i);
        let b = t.get_char(i);
        let ca: u32 = if a >= 'A' && a <= 'Z' {
            a as u32 + 32
        } else {
            a as u32
        };
        let cb: u32 = if b >= 'A' && b <= 'Z' {
            b as u32 + 32
        } else {
            b as u32
        };
        if ca != cb {
            return false;
        }
        i = i + 1;
    }
    true
}

/// The filename names a CSV file: it ends in `.csv`, in any ASCII case.
pub open spec fn csv_filename_view(s: Seq<char>) -> bool {
    &&& s.len() >= 4
    &&& s[s.len() - 4] == '.'
    &&& lower_code(s[s.len() - 3]) == 'c' as int
    &&& lower_code(s[s.len() - 2]) == 's' as int
    &&& lower_code(s[s.len() - 1]) == 'v' as int
}

/// Whether an uploaded file's name ends in `.csv`, case-folded.
pub fn is_csv_filename(s: &str) -> (r: bool)
    ensures
        r == csv_filename_view(s@),
{
    let n = s.unicode_len();
    if n < 4 {
        return false;
    }
    let dot = s.get_char(n - 4);
    let c1 = s.get_char(n - 3);
    let c2 = s.get_char(n - 2);
    let c3 = s.get_char(n - 1);
    dot == '.' && (c1 == 'c' || c1 == 'C') && (c2 == 's' || c2 == 'S') && (c3 == 'v' || c3 == 'V')
}

/// Why an upload request was rejected, in the order the fields are checked.
#[derive(Clone, Copy, Debug, PartialEq, Eq, Structural)]
pub enum UploadFieldError {
    NoFileFound,
    /// The file exceeds the upload size cap.
    FileTooLarge,
    MissingUserAddress,
    MissingDatasetPrice,
    MissingDescription,
    MissingName,
    MissingCategory,
}

/// The validation an upload request is owed: a file no larger than the cap
/// and every metadata field must be present, checked in this order, and the
/// metadata is assembled from the fields.
pub open spec fn upload_fields_check(
    has_file: bool,
    file_size: u64,
    user_address: Option<String>,
    dataset_price: Option<u128>,
    description: Option<String>,
    name: Option<String>,
    category: Option<AgentCategory>,
) -> Result<DatasetMetadata, UploadFieldError> {
    if !has_file {
        Err(UploadFieldError::NoFileFound)
    } else if file_size > MAX_FILE_SIZE {
        Err(UploadFieldError::FileTooLarge)
    } else if user_address is None {
        Err(UploadFieldError::MissingUserAddress)
    } else if dataset_price is None {
        Err(UploadFieldError::MissingDatasetPrice)
    } else if description is None {
        Err(UploadFieldError::MissingDescription)
    } else if name is None {
        Err(UploadFieldError::MissingName)
    } else if category is None {
        Err(UploadFieldError::MissingCategory)
    } else {
        Ok(
            DatasetMetadata {
                user_address: user_address->Some_0,
                dataset_price: dataset_price->Some_0,
                description: description->Some_0,
                name: name->Some_0,
                category: category->Some_0,
            },
        )
    }
}

/// Validates the decoded upload fields and assembles the metadata.
pub fn validate_upload_fields(
    has_file: bool,
    file_size: u64,
    user_address: Option<String>,
    dataset_price: Option<u128>,
    description: Option<String>,
    name: Option<String>,
    category: Option<AgentCategory>,
) -> (r: Result<DatasetMetadata, UploadFieldError>)
    ensures
        r == upload_fields_check(
            has_file,
            file_size,
            user_address,
            dataset_price,
            description,
            name,
            category,
        ),
{
    if !has_file {
        return Err(UploadFieldError::NoFileFound);
    }
    if file_size > MAX_FILE_SIZE {
        return Err(UploadFieldError::FileTooLarge);
    }
    let user_address = match user_address {
        Option::Some(v) => v,
        Option::None => {
            return Err(UploadFieldError::MissingUserAddress);
        },
    };
    let dataset_price = match dataset_price {
        Option::Some(v) => v,
        Option::None => {
            return Err(UploadFieldError::MissingDatasetPrice);
        },
    };
    let description = match description {
        Option::Some(v) => v,
        Option::None => {
            return Err(UploadFieldError::MissingDescription);
        },
    };
    let name = match name {
        Option::Some(v) => v,
        Option::None => {
            return Err(UploadFieldError::MissingName);
        },
    };
    let category = match category {
        Option::Some(v) => v,
        Option::None => {
            return Err(UploadFieldError::MissingCategory);
        },
    };
    Ok(DatasetMetadata { user_address, dataset_price, description, name, category })
}

/// The field a record listing may be ordered by.
#[derive(Clone, Copy, Debug, PartialEq, Eq, Structural)]
pub enum SortField {
    Price,
    CreatedAt,
    UpdatedAt,
    Name,
}

/// The direction a record listing may be ordered in.
#[derive(Clone, Copy, Debug, PartialEq, Eq, Structural)]
pub enum SortOrder {
    Asc,
    Desc,
}

/// Why a record listing's parameters were rejected.
#[derive(Clone, Copy, Debug, PartialEq, Eq, Structural)]
pub enum QueryPlanError {
    InvalidSortField,
    InvalidSortOrder,
}

/// The validated shape of a record listing query: which filters apply and
/// how the rows are ordered. A blank search or status filter is dropped.
pub struct AgentQueryPlan {
    pub search: Option<String>,
    pub category: Option<String>,
    pub status: Option<String>,
    pub sort_by: SortField,
    pub sort_order: SortOrder,
}

/// The requested sort field, defaulting to the creation time.
pub open spec fn sort_field_view(o: Option<String>) -> Option<SortField> {
    let s = match o {
        Option::Some(s) => s@,
        Option::None => "created_at"@,
    };
    if s == "price"@ {
        Some(SortField::Price)
    } else if s == "created_at"@ {
        Some(SortField::CreatedAt)
    } else if s == "updated_at"@ {
        Some(SortField::UpdatedAt)
    } else if s == "name"@ {
        Some(SortField::Name)
    } else {
        None
    }
}

/// The requested sort direction, defaulting to ascending; case is folded as
/// the interface documents.
pub open spec fn sort_order_view(o: Option<String>) -> Option<SortOrder> {
    let s = match o {
        Option::Some(s) => s@,
        Option::None => "asc"@,
    };
    if eq_ignore_ascii_case_view(s, "asc"@) {
        Some(SortOrder::Asc)
    } else if eq_ignore_ascii_case_view(s, "desc"@) {
        Some(SortOrder::Desc)
    } else {
        None
    }
}

/// A whitespace character, as trimming sees it: the Unicode `White_Space`
/// set.
pub open spec fn is_whitespace_char(c: char) -> bool {
    ||| '\u{0009}' <= c && c <= '\u{000d}'
    ||| c == ' '
    ||| c == '\u{0085}'
    ||| c == '\u{00a0}'
    ||| c == '\u{1680}'
    ||| '\u{2000}' <= c && c <= '\u{200a}'
    ||| c == '\u{2028}'
    ||| c == '\u{2029}'
    ||| c == '\u{202f}'
    ||| c == '\u{205f}'
    ||| c == '\u{3000}'
}

/// Whether one character is whitespace.
fn is_whitespace(c: char) -> (r: bool)
    ensures
        r == is_whitespace_char(c),
{
    (c >= '\u{0009}' && c <= '\u{000d}') || c == ' ' || c == '\u{0085}' || c == '\u{00a0}'
        || c == '\u{1680}' || (c >= '\u{2000}' && c <= '\u{200a}') || c == '\u{2028}' || c
        == '\u{2029}' || c == '\u{202f}' || c == '\u{205f}' || c == '\u{3000}'
}

/// Every character is whitespace — what a blank filter looks like (a blank
/// string trims to empty).
pub open spec fn is_blank_view(s: Seq<char>) -> bool {
    forall|i: int| 0 <= i < s.len() ==> is_whitespace_char(#[trigger] s[i])
}

/// Whether a filter string is blank.
pub fn is_blank(s: &str) -> (r: bool)
    ensures
        r == is_blank_view(s@),
{
    let n = s.unicode_len();
    let mut i: usize = 0;
    while i < n
        invariant
            0 <= i <= n,
            n == s@.len(),
            forall|j: int| 0 <= j < i ==> is_whitespace_char(#[trigger] s@[j]),
        decreases n - i,
    {
        if !is_whitespace(s.get_char(i)) {
            return false;
        }
        i = i + 1;
    }
    true
}

/// A filter kept only when it is present and not blank.
pub open spec fn kept_filter(o: Option<String>) -> Option<String> {
    match o {
        Option::Some(s) => if is_blank_view(s@) {
            None
        } else {
            Some(s)
        },
        Option::None => None,
    }
}

/// Validates a record listing's parameters into a query plan: the sort
/// field must be one of the documented four, the direction ascending or
/// descending up to case, and blank search or status filters are dropped.
pub fn plan_agent_query(params: &AgentQueryParams) -> (r: Result<AgentQueryPlan, QueryPlanError>)
    ensures
        r is Err ==> (r == Err::<AgentQueryPlan, QueryPlanError>(QueryPlanError::InvalidSortField)
            <==> sort_field_view(params.sort_by) is None),
        r is Err ==> (r == Err::<AgentQueryPlan, QueryPlanError>(QueryPlanError::InvalidSortOrder)
            <==> sort_field_view(params.sort_by) is Some && sort_order_view(params.sort_order)
            is None),
        r is Ok <==> sort_field_view(params.sort_by) is Some && sort_order_view(params.sort_order)
            is Some,
        r matches Ok(plan) ==> {
            &&& Some(plan.sort_by) == sort_field_view(params.sort_by)
            &&& Some(plan.sort_order) == sort_order_view(params.sort_order)
            &&& plan.search == kept_filter(params.search)
            &&& plan.category == params.category
            &&& plan.status == kept_filter(params.status)
        },
{
    proof {
        reveal_strlit("created_at");
        reveal_strlit("price");
    }
    // Once revealed, the default label and the first candidate label are
    // distinct, which settles the default branch of the sort-field check.
    assert("created_at"@.len() == 10);
    assert("price"@.len() == 5);
    assert("created_at"@ != "price"@);
    let sort_by = match &params.sort_by {
        Option::Some(s) => {
            let c: String = s.as_str().to_owned();
            if c == "price".to_owned() {
                SortField::Price
            } else if c == "created_at".to_owned() {
                SortField::CreatedAt
            } else if c == "updated_at".to_owned() {
                SortField::UpdatedAt
            } else if c == "name".to_owned() {
                SortField::Name
            } else {
                return Err(QueryPlanError::InvalidSortField);
            }
        },
        Option::None => SortField::CreatedAt,
    };
    assert(Some(sort_by) == sort_field_view(params.sort_by));
    let sort_order = match &params.sort_order {
        Option::Some(s) => {
            if eq_ignore_ascii_case(s.as_str(), "asc") {
                SortOrder::Asc
            } else if eq_ignore_ascii_case(s.as_str(), "desc") {
                SortOrder::Desc
            } else {
                return Err(QueryPlanError::InvalidSortOrder);
            }
        },
        Option::None => SortOrder::Asc,
    };
    let search = match &params.search {
        Option::Some(s) => {
            if is_blank(s.as_str()) {
                Option::None
            } else {
                Option::Some(s.clone())
            }
        },
        Option::None => Option::None,
    };
    let status = match &params.status {
        Option::Some(s) => {
            if is_blank(s.as_str()) {
                Option::None
            } else {
                Option::Some(s.clone())
            }
        },
        Option::None => Option::None,
    };
    Ok(
        AgentQueryPlan {
            search,
            category: crate::records::clone_opt_string(&params.category),
            status,
            sort_by,
            sort_order,
        },
    )
}

} // verus!
