//! Plain data records: what the registry stores about models and chats,
//! what the model hub reports about a repository, and the file-level
//! classification derived from a repository listing.

use vstd::prelude::*;

use crate::textutil::has_suffix;
use crate::textutil::str_ends_with;

verus! {

/// One installed model as the registry records it.
#[derive(Debug, Clone)]
pub struct ModelRecord {
    pub id: String,
    pub name: String,
    pub path: String,
    pub size_bytes: Option<i64>,
    pub quantization: Option<String>,
    pub context_length: Option<i64>,
    pub created_at: i64,
    pub last_used: Option<i64>,
}

/// One stored chat session.
#[derive(Debug, Clone)]
pub struct ChatSession {
    pub id: String,
    pub title: Option<String>,
    pub model_id: Option<String>,
    pub created_at: i64,
    pub updated_at: i64,
}

/// One stored chat message.
#[derive(Debug, Clone)]
pub struct ChatMessage {
    pub id: String,
    pub session_id: String,
    pub role: String,
    pub content: String,
    pub created_at: i64,
}

/// Architecture facts read from a model's configuration file.
#[derive(Debug, Clone)]
pub struct ModelMetadata {
    pub model_type: Option<String>,
    pub vocab_size: Option<u64>,
    pub hidden_size: Option<u64>,
    pub num_attention_heads: Option<u64>,
    pub num_hidden_layers: Option<u64>,
    pub max_position_embeddings: Option<u64>,
}

/// Summary of a hub repository's artifacts.
#[derive(Debug)]
pub struct ModelInfo {
    pub size_bytes: Option<u64>,
    pub num_parameters: Option<String>,
    pub files: Vec<String>,
}

/// One file of a hub repository.
#[derive(Debug, Clone)]
pub struct FileInfo {
    pub name: String,
    pub size: Option<u64>,
}

/// What a repository offers: whether a packaged model file is present,
/// its reported size and architecture, and the file listing.
#[derive(Debug)]
pub struct ModelData {
    pub has_gguf: bool,
    pub size_bytes: Option<u64>,
    pub architecture: Option<String>,
    pub context_length: Option<u64>,
    pub files: Vec<String>,
    pub files_with_size: Vec<FileInfo>,
}

/// One model as the hub search reports it.
#[derive(Debug, Clone)]
pub struct HuggingFaceModel {
    pub id: String,
    pub author: String,
    pub name: String,
    pub downloads: u64,
    pub likes: u64,
    pub description: Option<String>,
    pub tags: Vec<String>,
    pub size_bytes: Option<u64>,
    pub num_parameters: Option<String>,
    pub architecture: Option<String>,
    pub context_length: Option<u64>,
}

/// True when some listed file name ends with the given suffix.
pub open spec fn spec_any_with_suffix(files: Seq<String>, suffix: Seq<char>) -> bool {
    exists|i: int| 0 <= i < files.len() && has_suffix((#[trigger] files[i])@, suffix)
}

/// True when the listing holds a packaged model file.
pub fn has_gguf_file(files: &Vec<String>) -> (r: bool)
    ensures
        r == spec_any_with_suffix(files@, ".gguf"@),
{
    let n = files.len();
    let mut i: usize = 0;
    while i < n
        invariant
            i <= n,
            n == files@.len(),
            forall|j: int| 0 <= j < i ==> !has_suffix((#[trigger] files@[j])@, ".gguf"@),
        decreases n - i,
    {
        if str_ends_with(files[i].as_str(), ".gguf") {
            return true;
        }
        i = i + 1;
    }
    false
}

/// The packaged model files of a listing, in order.
pub fn gguf_file_names(files: &Vec<String>) -> (r: Vec<String>)
    ensures
        forall|i: int| 0 <= i < r@.len() ==> has_suffix((#[trigger] r@[i])@, ".gguf"@),
        r@.len() == files@.filter(|f: String| has_suffix(f@, ".gguf"@)).len(),
        r@ == files@.filter(|f: String| has_suffix(f@, ".gguf"@)),
{
    let n = files.len();
    let mut r: Vec<String> = Vec::new();
    let mut i: usize = 0;
    proof {
        assert(files@.subrange(0, 0).filter(|f: String| has_suffix(f@, ".gguf"@)) =~= Seq::<
            String,
        >::empty());
    }
    while i < n
        invariant
            i <= n,
            n == files@.len(),
            r@ == files@.subrange(0, i as int).filter(|f: String| has_suffix(f@, ".gguf"@)),
        decreases n - i,
    {
        proof {
            let prefix = files@.subrange(0, i as int);
            let next = files@.subrange(0, i + 1);
            assert(next.drop_last() =~= prefix);
            reveal(Seq::filter);
        }
        if str_ends_with(files[i].as_str(), ".gguf") {
            r.push(files[i].clone());
        }
        i = i + 1;
    }
    proof {
        assert(files@.subrange(0, n as int) =~= files@);
        let filtered = files@.filter(|f: String| has_suffix(f@, ".gguf"@));
        assert forall|i: int| 0 <= i < r@.len() implies has_suffix((#[trigger] r@[i])@, ".gguf"@) by {
            files@.lemma_filter_pred(|f: String| has_suffix(f@, ".gguf"@), i);
        }
    }
    r
}

} // verus!
