use vstd::prelude::*;

use std::sync::Arc;

use crate::kv_api::GetKVReply;
use crate::kv_api::KVApi;
use crate::kv_api::ListKVReply;
use crate::kv_api::MGetKVReply;
use crate::kv_api::TxnReply;
use crate::kv_api::TxnRequest;
use crate::kv_api::UpsertKVReply;
use crate::kv_api::UpsertKVReq;

verus! {

/// A shared reference to a store is a store: every operation goes to the
/// referenced one, with its outcomes and its error type.
impl<'a, B: KVApi> KVApi for &'a B {
    type Error = B::Error;

    open spec fn upsert_kv_outcome(&self, req: UpsertKVReq, r: Result<UpsertKVReply, B::Error>) -> bool {
        (**self).upsert_kv_outcome(req, r)
    }

    open spec fn get_kv_outcome(&self, key: Seq<char>, r: Result<GetKVReply, B::Error>) -> bool {
        (**self).get_kv_outcome(key, r)
    }

    open spec fn mget_kv_outcome(&self, keys: Seq<String>, r: Result<MGetKVReply, B::Error>) -> bool {
        (**self).mget_kv_outcome(keys, r)
    }

    open spec fn prefix_list_kv_outcome(&self, prefix: Seq<char>, r: Result<ListKVReply, B::Error>) -> bool {
        (**self).prefix_list_kv_outcome(prefix, r)
    }

    open spec fn transaction_outcome(&self, txn: TxnRequest, r: Result<TxnReply, B::Error>) -> bool {
        (**self).transaction_outcome(txn, r)
    }

    fn upsert_kv(&self, req: UpsertKVReq) -> (r: Result<UpsertKVReply, B::Error>) {
        (**self).upsert_kv(req)
    }

    fn get_kv(&self, key: &str) -> (r: Result<GetKVReply, B::Error>) {
        (**self).get_kv(key)
    }

    fn mget_kv(&self, keys: &[String]) -> (r: Result<MGetKVReply, B::Error>) {
        (**self).mget_kv(keys)
    }

    fn prefix_list_kv(&self, prefix: &str) -> (r: Result<ListKVReply, B::Error>) {
        (**self).prefix_list_kv(prefix)
    }

    fn transaction(&self, txn: TxnRequest) -> (r: Result<TxnReply, B::Error>) {
        (**self).transaction(txn)
    }
}

/// A boxed store is a store: every operation goes to the boxed one, with its
/// outcomes and its error type.
impl<B: KVApi> KVApi for Box<B> {
    type Error = B::Error;

    open spec fn upsert_kv_outcome(&self, req: UpsertKVReq, r: Result<UpsertKVReply, B::Error>) -> bool {
        (**self).upsert_kv_outcome(req, r)
    }

    open spec fn get_kv_outcome(&self, key: Seq<char>, r: Result<GetKVReply, B::Error>) -> bool {
        (**self).get_kv_outcome(key, r)
    }

    open spec fn mget_kv_outcome(&self, keys: Seq<String>, r: Result<MGetKVReply, B::Error>) -> bool {
        (**self).mget_kv_outcome(keys, r)
    }

    open spec fn prefix_list_kv_outcome(&self, prefix: Seq<char>, r: Result<ListKVReply, B::Error>) -> bool {
        (**self).prefix_list_kv_outcome(prefix, r)
    }

    open spec fn transaction_outcome(&self, txn: TxnRequest, r: Result<TxnReply, B::Error>) -> bool {
        (**self).transaction_outcome(txn, r)
    }

    fn upsert_kv(&self, req: UpsertKVReq) -> (r: Result<UpsertKVReply, B::Error>) {
        (**self).upsert_kv(req)
    }

    fn get_kv(&self, key: &str) -> (r: Result<GetKVReply, B::Error>) {
        (**self).get_kv(key)
    }

    fn mget_kv(&self, keys: &[String]) -> (r: Result<MGetKVReply, B::Error>) {
        (**self).mget_kv(keys)
    }

    fn prefix_list_kv(&self, prefix: &str) -> (r: Result<ListKVReply, B::Error>) {
        (**self).prefix_list_kv(prefix)
    }

    fn transaction(&self, txn: TxnRequest) -> (r: Result<TxnReply, B::Error>) {
        (**self).transaction(txn)
    }
}

/// A store behind an `Arc` is a store: every operation goes to the shared
/// one, with its outcomes and its error type.
impl<B: KVApi> KVApi for Arc<B> {
    type Error = B::Error;

    open spec fn upsert_kv_outcome(&self, req: UpsertKVReq, r: Result<UpsertKVReply, B::Error>) -> bool {
        (**self).upsert_kv_outcome(req, r)
    }

    open spec fn get_kv_outcome(&self, key: Seq<char>, r: Result<GetKVReply, B::Error>) -> bool {
        (**self).get_kv_outcome(key, r)
    }

    open spec fn mget_kv_outcome(&self, keys: Seq<String>, r: Result<MGetKVReply, B::Error>) -> bool {
        (**self).mget_kv_outcome(keys, r)
    }

    open spec fn prefix_list_kv_outcome(&self, prefix: Seq<char>, r: Result<ListKVReply, B::Error>) -> bool {
        (**self).prefix_list_kv_outcome(prefix, r)
    }

    open spec fn transaction_outcome(&self, txn: TxnRequest, r: Result<TxnReply, B::Error>) -> bool {
        (**self).transaction_outcome(txn, r)
    }

    fn upsert_kv(&self, req: UpsertKVReq) -> (r: Result<UpsertKVReply, B::Error>) {
        (**self).upsert_kv(req)
    }

    fn get_kv(&self, key: &str) -> (r: Result<GetKVReply, B::Error>) {
        (**self).get_kv(key)
    }

    fn mget_kv(&self, keys: &[String]) -> (r: Result<MGetKVReply, B::Error>) {
        (**self).mget_kv(keys)
    }

    fn prefix_list_kv(&self, prefix: &str) -> (r: Result<ListKVReply, B::Error>) {
        (**self).prefix_list_kv(prefix)
    }

    fn transaction(&self, txn: TxnRequest) -> (r: Result<TxnReply, B::Error>) {
        (**self).transaction(txn)
    }
}

/// Reaching a store through a shared reference changes nothing: each
/// operation admits exactly the results and errors that the store admits.
pub proof fn lemma_ref_transparent<'a, B: KVApi>(w: &'a B)
    ensures
        forall|req: UpsertKVReq, r: Result<UpsertKVReply, B::Error>|
            #[trigger] <&'a B as KVApi>::upsert_kv_outcome(&w, req, r) == (*w).upsert_kv_outcome(req, r),
        forall|key: Seq<char>, r: Result<GetKVReply, B::Error>|
            #[trigger] <&'a B as KVApi>::get_kv_outcome(&w, key, r) == (*w).get_kv_outcome(key, r),
        forall|keys: Seq<String>, r: Result<MGetKVReply, B::Error>|
            #[trigger] <&'a B as KVApi>::mget_kv_outcome(&w, keys, r) == (*w).mget_kv_outcome(keys, r),
        forall|prefix: Seq<char>, r: Result<ListKVReply, B::Error>|
            #[trigger] <&'a B as KVApi>::prefix_list_kv_outcome(&w, prefix, r) == (*w).prefix_list_kv_outcome(prefix, r),
        forall|txn: TxnRequest, r: Result<TxnReply, B::Error>|
            #[trigger] <&'a B as KVApi>::transaction_outcome(&w, txn, r) == (*w).transaction_outcome(txn, r),
{
}

/// Reaching a store through a `Box` changes nothing: each operation admits
/// exactly the results and errors that the store admits.
pub proof fn lemma_box_transparent<B: KVApi>(w: Box<B>)
    ensures
        forall|req: UpsertKVReq, r: Result<UpsertKVReply, B::Error>|
            #[trigger] <Box<B> as KVApi>::upsert_kv_outcome(&w, req, r) == (*w).upsert_kv_outcome(req, r),
        forall|key: Seq<char>, r: Result<GetKVReply, B::Error>|
            #[trigger] <Box<B> as KVApi>::get_kv_outcome(&w, key, r) == (*w).get_kv_outcome(key, r),
        forall|keys: Seq<String>, r: Result<MGetKVReply, B::Error>|
            #[trigger] <Box<B> as KVApi>::mget_kv_outcome(&w, keys, r) == (*w).mget_kv_outcome(keys, r),
        forall|prefix: Seq<char>, r: Result<ListKVReply, B::Error>|
            #[trigger] <Box<B> as KVApi>::prefix_list_kv_outcome(&w, prefix, r) == (*w).prefix_list_kv_outcome(prefix, r),
        forall|txn: TxnRequest, r: Result<TxnReply, B::Error>|
            #[trigger] <Box<B> as KVApi>::transaction_outcome(&w, txn, r) == (*w).transaction_outcome(txn, r),
{
}

/// Reaching a store through an `Arc` changes nothing: each operation admits
/// exactly the results and errors that the store admits.
pub proof fn lemma_arc_transparent<B: KVApi>(w: Arc<B>)
    ensures
        forall|req: UpsertKVReq, r: Result<UpsertKVReply, B::Error>|
            #[trigger] <Arc<B> as KVApi>::upsert_kv_outcome(&w, req, r) == (*w).upsert_kv_outcome(req, r),
        forall|key: Seq<char>, r: Result<GetKVReply, B::Error>|
            #[trigger] <Arc<B> as KVApi>::get_kv_outcome(&w, key, r) == (*w).get_kv_outcome(key, r),
        forall|keys: Seq<String>, r: Result<MGetKVReply, B::Error>|
            #[trigger] <Arc<B> as KVApi>::mget_kv_outcome(&w, keys, r) == (*w).mget_kv_outcome(keys, r),
        forall|prefix: Seq<char>, r: Result<ListKVReply, B::Error>|
            #[trigger] <Arc<B> as KVApi>::prefix_list_kv_outcome(&w, prefix, r) == (*w).prefix_list_kv_outcome(prefix, r),
        forall|txn: TxnRequest, r: Result<TxnReply, B::Error>|
            #[trigger] <Arc<B> as KVApi>::transaction_outcome(&w, txn, r) == (*w).transaction_outcome(txn, r),
{
}

} // verus!
