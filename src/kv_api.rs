use vstd::prelude::*;
use vstd::utf8::is_ascii_chars;

use crate::prefix::key_lt;
use crate::prefix::prefix_end;

verus! {

/// A stored value with the sequence number of the write that produced it.
#[derive(Clone, Debug, PartialEq, Eq)]
pub struct SeqV {
    pub seq: u64,
    pub data: Vec<u8>,
}

/// The sequence number a record is seen with: 0 where the key is absent.
pub open spec fn seq_of(cur: Option<SeqV>) -> u64 {
    match cur {
        Some(v) => v.seq,
        None => 0,
    }
}

/// A precondition on the current sequence number of a record.
#[derive(Clone, Copy, Debug, PartialEq, Eq)]
pub enum MatchSeq {
    /// No precondition.
    Any,
    /// The record's sequence number is exactly this one (0: the key is absent).
    Exact(u64),
    /// The record's sequence number is at least this one.
    GE(u64),
}

impl MatchSeq {
    pub open spec fn spec_matches(self, cur: Option<SeqV>) -> bool {
        match self {
            MatchSeq::Any => true,
            MatchSeq::Exact(s) => seq_of(cur) == s,
            MatchSeq::GE(s) => seq_of(cur) >= s,
        }
    }

    /// Whether a record currently in the state `cur` meets this precondition.
    pub fn matches(&self, cur: &Option<SeqV>) -> (r: bool)
        ensures
            r == self.spec_matches(*cur),
    {
        let s: u64 = match cur {
            Some(v) => v.seq,
            None => 0,
        };
        match self {
            MatchSeq::Any => true,
            MatchSeq::Exact(want) => s == *want,
            MatchSeq::GE(least) => s >= *least,
        }
    }
}

/// A request to create or overwrite one key, guarded by a precondition.
#[derive(Clone, Debug, PartialEq, Eq)]
pub struct UpsertKVReq {
    pub key: String,
    pub seq: MatchSeq,
    pub value: Vec<u8>,
}

/// The record before and after an upsert.
#[derive(Clone, Debug, PartialEq, Eq)]
pub struct UpsertKVReply {
    pub prev: Option<SeqV>,
    pub result: Option<SeqV>,
}

/// The value of one key, if it exists.
pub type GetKVReply = Option<SeqV>;

/// The values of several keys, in the order the keys were given.
pub type MGetKVReply = Vec<Option<SeqV>>;

/// Records in key order.
pub type ListKVReply = Vec<(String, SeqV)>;

/// A condition of a transaction on the current state of one key.
#[derive(Clone, Debug, PartialEq, Eq)]
pub struct TxnCondition {
    pub key: String,
    pub seq: MatchSeq,
}

/// One operation of a transaction branch.
#[derive(Clone, Debug, PartialEq, Eq)]
pub enum TxnOp {
    Put { key: String, value: Vec<u8> },
    Delete { key: String },
    Get { key: String },
}

/// The outcome of one operation of the branch that was run.
#[derive(Clone, Debug, PartialEq, Eq)]
pub enum TxnOpResponse {
    Put { key: String, prev: Option<SeqV> },
    Delete { key: String, prev: Option<SeqV> },
    Get { key: String, value: Option<SeqV> },
}

/// Operations run atomically: `if_then` when every condition holds,
/// `else_then` otherwise.
#[derive(Clone, Debug, PartialEq, Eq)]
pub struct TxnRequest {
    pub condition: Vec<TxnCondition>,
    pub if_then: Vec<TxnOp>,
    pub else_then: Vec<TxnOp>,
}

/// Which branch ran, and the outcome of each of its operations.
#[derive(Clone, Debug, PartialEq, Eq)]
pub struct TxnReply {
    pub success: bool,
    pub responses: Vec<TxnOpResponse>,
}

/// A response answers an operation: the same kind, on the same key.
pub open spec fn answers(op: TxnOp, resp: TxnOpResponse) -> bool {
    match (op, resp) {
        (TxnOp::Put { key: k1, .. }, TxnOpResponse::Put { key: k2, .. }) => k1@ == k2@,
        (TxnOp::Delete { key: k1 }, TxnOpResponse::Delete { key: k2, .. }) => k1@ == k2@,
        (TxnOp::Get { key: k1 }, TxnOpResponse::Get { key: k2, .. }) => k1@ == k2@,
        _ => false,
    }
}

/// `responses` answers `ops` one for one, in order.
pub open spec fn answers_all(ops: Seq<TxnOp>, responses: Seq<TxnOpResponse>) -> bool {
    &&& responses.len() == ops.len()
    &&& forall|i: int| 0 <= i < ops.len() ==> answers(#[trigger] ops[i], responses[i])
}

/// What every successful upsert reports: the new value where the
/// precondition held, the unchanged record where it did not.
pub open spec fn upsert_reply_ok(req: UpsertKVReq, rep: UpsertKVReply) -> bool {
    if req.seq.spec_matches(rep.prev) {
        rep.result matches Some(v) && v.data@ == req.value@
    } else {
        rep.result == rep.prev
    }
}

/// The keys of `list` are in `[start, end)` and strictly ascending.
pub open spec fn list_in_range(list: Seq<(String, SeqV)>, start: Seq<char>, end: Seq<char>) -> bool {
    &&& forall|i: int|
        0 <= i < list.len() ==> (#[trigger] list[i]).0@ == start || key_lt(start, list[i].0@)
    &&& forall|i: int| 0 <= i < list.len() ==> key_lt((#[trigger] list[i]).0@, end)
    &&& forall|i: int, j: int| 0 <= i < j < list.len() ==> key_lt(#[trigger] list[i].0@, #[trigger] list[j].0@)
}

/// A key-value store. Each operation's possible outcomes are stated twice:
/// what holds for every store, and what the store itself admits (the
/// `*_outcome` relations, which an implementation may narrow; by default a
/// store admits any outcome that meets the first).
pub trait KVApi: Send + Sync {
    /// The error an implementation returns: a local store reports storage
    /// faults, a remote one network faults as well. (Verus does not take
    /// `std::error::Error` as a bound here.)
    type Error: Send + Sync + 'static;

    open spec fn upsert_kv_outcome(&self, req: UpsertKVReq, r: Result<UpsertKVReply, Self::Error>) -> bool {
        true
    }

    open spec fn get_kv_outcome(&self, key: Seq<char>, r: Result<GetKVReply, Self::Error>) -> bool {
        true
    }

    open spec fn mget_kv_outcome(&self, keys: Seq<String>, r: Result<MGetKVReply, Self::Error>) -> bool {
        true
    }

    open spec fn prefix_list_kv_outcome(&self, prefix: Seq<char>, r: Result<ListKVReply, Self::Error>) -> bool {
        true
    }

    open spec fn transaction_outcome(&self, txn: TxnRequest, r: Result<TxnReply, Self::Error>) -> bool {
        true
    }

    /// Updates or inserts a record, where `req.seq` holds of the current one.
    fn upsert_kv(&self, req: UpsertKVReq) -> (r: Result<UpsertKVReply, Self::Error>)
        ensures
            self.upsert_kv_outcome(req, r),
            r matches Ok(rep) ==> upsert_reply_ok(req, rep),
    ;

    /// Gets a record by key.
    fn get_kv(&self, key: &str) -> (r: Result<GetKVReply, Self::Error>)
        ensures
            self.get_kv_outcome(key@, r),
    ;

    /// Gets several records, one answer per key in the order given.
    fn mget_kv(&self, keys: &[String]) -> (r: Result<MGetKVReply, Self::Error>)
        ensures
            self.mget_kv_outcome(keys@, r),
            r matches Ok(v) ==> v@.len() == keys@.len(),
    ;

    /// Lists the records whose key starts with `prefix`, in key order: those in
    /// `[prefix, end)`, with `end` computed as `prefix_of_string` does.
    fn prefix_list_kv(&self, prefix: &str) -> (r: Result<ListKVReply, Self::Error>)
        ensures
            self.prefix_list_kv_outcome(prefix@, r),
            r matches Ok(l) ==> is_ascii_chars(prefix@) && list_in_range(
                l@,
                prefix@,
                prefix_end(prefix@),
            ),
    ;

    /// Runs a transaction: one branch, chosen by the conditions, applied as a whole.
    fn transaction(&self, txn: TxnRequest) -> (r: Result<TxnReply, Self::Error>)
        ensures
            self.transaction_outcome(txn, r),
            r matches Ok(rep) ==> answers_all(
                if rep.success {
                    txn.if_then@
                } else {
                    txn.else_then@
                },
                rep.responses@,
            ),
    ;
}

/// Builds stores: one on its own, or the members of a cluster.
pub trait ApiBuilder<T>: Clone {
    /// Creates a single store.
    fn build(&self) -> T;

    /// Creates the members of a cluster, in order.
    fn build_cluster(&self) -> Vec<T>;
}

} // verus!
