use std::collections::BTreeMap;
use std::sync::Arc;
use std::sync::Mutex;

use kvapi::kv_api::ApiBuilder;
use kvapi::kv_api::GetKVReply;
use kvapi::kv_api::KVApi;
use kvapi::kv_api::ListKVReply;
use kvapi::kv_api::MGetKVReply;
use kvapi::kv_api::MatchSeq;
use kvapi::kv_api::SeqV;
use kvapi::kv_api::TxnCondition;
use kvapi::kv_api::TxnOp;
use kvapi::kv_api::TxnOpResponse;
use kvapi::kv_api::TxnReply;
use kvapi::kv_api::TxnRequest;
use kvapi::kv_api::UpsertKVReply;
use kvapi::kv_api::UpsertKVReq;
use kvapi::prefix::get_start_and_end_of_prefix;

#[derive(Default)]
struct MemStore {
    inner: Mutex<(u64, BTreeMap<String, SeqV>)>,
}

impl KVApi for MemStore {
    type Error = String;

    fn upsert_kv(&self, req: UpsertKVReq) -> Result<UpsertKVReply, String> {
        let mut g = self.inner.lock().unwrap();
        let prev = g.1.get(&req.key).cloned();
        if !req.seq.matches(&prev) {
            return Ok(UpsertKVReply { prev: prev.clone(), result: prev });
        }
        g.0 += 1;
        let v = SeqV { seq: g.0, data: req.value };
        g.1.insert(req.key, v.clone());
        Ok(UpsertKVReply { prev, result: Some(v) })
    }

    fn get_kv(&self, key: &str) -> Result<GetKVReply, String> {
        Ok(self.inner.lock().unwrap().1.get(key).cloned())
    }

    fn mget_kv(&self, keys: &[String]) -> Result<MGetKVReply, String> {
        let g = self.inner.lock().unwrap();
        Ok(keys.iter().map(|k| g.1.get(k).cloned()).collect())
    }

    fn prefix_list_kv(&self, prefix: &str) -> Result<ListKVReply, String> {
        let (start, end) = match get_start_and_end_of_prefix(prefix) {
            Ok(r) => r,
            Err(_) => return Err(String::from("non-ASCII prefix")),
        };
        let g = self.inner.lock().unwrap();
        Ok(g.1.range(start..end).map(|(k, v)| (k.clone(), v.clone())).collect())
    }

    fn transaction(&self, txn: TxnRequest) -> Result<TxnReply, String> {
        let mut g = self.inner.lock().unwrap();
        let success = txn.condition.iter().all(|c| c.seq.matches(&g.1.get(&c.key).cloned()));
        let ops = if success { txn.if_then } else { txn.else_then };
        let mut responses = Vec::new();
        for op in ops {
            match op {
                TxnOp::Put { key, value } => {
                    g.0 += 1;
                    let seq = g.0;
                    let prev = g.1.insert(key.clone(), SeqV { seq, data: value });
                    responses.push(TxnOpResponse::Put { key, prev });
                }
                TxnOp::Delete { key } => {
                    let prev = g.1.remove(&key);
                    responses.push(TxnOpResponse::Delete { key, prev });
                }
                TxnOp::Get { key } => {
                    let value = g.1.get(&key).cloned();
                    responses.push(TxnOpResponse::Get { key, value });
                }
            }
        }
        Ok(TxnReply { success, responses })
    }
}

#[derive(Clone)]
struct MemBuilder;

impl ApiBuilder<MemStore> for MemBuilder {
    fn build(&self) -> MemStore {
        MemStore::default()
    }

    fn build_cluster(&self) -> Vec<MemStore> {
        vec![self.build(), self.build(), self.build()]
    }
}

fn put<A: KVApi>(api: &A, key: &str, value: &[u8]) -> UpsertKVReply
where
    A::Error: std::fmt::Debug,
{
    let req = UpsertKVReq { key: key.to_string(), seq: MatchSeq::Any, value: value.to_vec() };
    api.upsert_kv(req).unwrap()
}

fn keys_of(list: &ListKVReply) -> Vec<String> {
    list.iter().map(|(k, _)| k.clone()).collect()
}

#[test]
fn prefix_list_excludes_keys_without_prefix() {
    let store = MemStore::default();
    put(&store, "user/1", b"a");
    put(&store, "user/2", b"b");
    put(&store, "users", b"c");
    let list = store.prefix_list_kv("user/").unwrap();
    assert_eq!(keys_of(&list), vec!["user/1".to_string(), "user/2".to_string()]);
}

#[test]
fn prefix_list_rejects_non_ascii_prefix() {
    let store = MemStore::default();
    put(&store, "café", b"a");
    assert!(store.prefix_list_kv("café").is_err());
}

#[test]
fn upsert_with_failed_precondition_keeps_record() {
    let store = MemStore::default();
    let first = put(&store, "k", b"v1");
    assert_eq!(first.prev, None);
    let seq = first.result.clone().unwrap().seq;
    let req = UpsertKVReq { key: "k".to_string(), seq: MatchSeq::Exact(seq + 7), value: b"v2".to_vec() };
    let rep = store.upsert_kv(req).unwrap();
    assert_eq!(rep.prev, first.result);
    assert_eq!(rep.result, rep.prev);
    assert_eq!(store.get_kv("k").unwrap().unwrap().data, b"v1".to_vec());
    let req = UpsertKVReq { key: "k".to_string(), seq: MatchSeq::Exact(seq), value: b"v2".to_vec() };
    let rep = store.upsert_kv(req).unwrap();
    assert_eq!(rep.result.unwrap().data, b"v2".to_vec());
}

#[test]
fn match_seq_rules() {
    let cur = Some(SeqV { seq: 5, data: vec![1] });
    assert!(MatchSeq::Any.matches(&cur));
    assert!(MatchSeq::Any.matches(&None));
    assert!(MatchSeq::Exact(5).matches(&cur));
    assert!(!MatchSeq::Exact(4).matches(&cur));
    assert!(MatchSeq::Exact(0).matches(&None));
    assert!(!MatchSeq::Exact(0).matches(&cur));
    assert!(MatchSeq::GE(5).matches(&cur));
    assert!(MatchSeq::GE(3).matches(&cur));
    assert!(!MatchSeq::GE(6).matches(&cur));
    assert!(!MatchSeq::GE(1).matches(&None));
}

#[test]
fn mget_answers_in_key_order() {
    let store = MemStore::default();
    put(&store, "b", b"2");
    put(&store, "a", b"1");
    let keys = vec!["a".to_string(), "x".to_string(), "b".to_string()];
    let got = store.mget_kv(&keys).unwrap();
    assert_eq!(got.len(), 3);
    assert_eq!(got[0].clone().unwrap().data, b"1".to_vec());
    assert_eq!(got[1], None);
    assert_eq!(got[2].clone().unwrap().data, b"2".to_vec());
}

#[test]
fn transaction_runs_one_branch() {
    let store = MemStore::default();
    put(&store, "k", b"v");
    let txn = TxnRequest {
        condition: vec![TxnCondition { key: "k".to_string(), seq: MatchSeq::Exact(0) }],
        if_then: vec![TxnOp::Put { key: "k".to_string(), value: b"new".to_vec() }],
        else_then: vec![TxnOp::Get { key: "k".to_string() }, TxnOp::Delete { key: "z".to_string() }],
    };
    let rep = store.transaction(txn).unwrap();
    assert!(!rep.success);
    assert_eq!(rep.responses.len(), 2);
    assert!(matches!(&rep.responses[0], TxnOpResponse::Get { key, value: Some(_) } if key == "k"));
    assert_eq!(store.get_kv("k").unwrap().unwrap().data, b"v".to_vec());
}

#[test]
fn wrappers_answer_as_the_store() {
    let store = Arc::new(MemStore::default());
    put(&store, "user/1", b"a");
    put(&&*store, "user/2", b"b");
    put(&Box::new(MemStore::default()), "other", b"c");
    let direct = store.as_ref().prefix_list_kv("user/").unwrap();
    let by_arc = store.prefix_list_kv("user/").unwrap();
    let by_ref = (&*store).prefix_list_kv("user/").unwrap();
    assert_eq!(direct, by_arc);
    assert_eq!(direct, by_ref);
    assert_eq!(store.get_kv("user/1").unwrap(), store.as_ref().get_kv("user/1").unwrap());
    assert_eq!(
        <Arc<MemStore> as KVApi>::prefix_list_kv(&store, "é"),
        <MemStore as KVApi>::prefix_list_kv(store.as_ref(), "é")
    );
    let boxed = Box::new(MemStore::default());
    put(&boxed, "k", b"v");
    assert_eq!(<Box<MemStore> as KVApi>::get_kv(&boxed, "k").unwrap().unwrap().data, b"v".to_vec());
}

#[test]
fn builder_makes_independent_stores() {
    let b = MemBuilder;
    let one = b.build();
    put(&one, "k", b"v");
    let cluster = b.build_cluster();
    assert_eq!(cluster.len(), 3);
    assert_eq!(cluster[0].get_kv("k").unwrap(), None);
    put(&cluster[1], "k", b"w");
    assert_eq!(cluster[2].get_kv("k").unwrap(), None);
}
