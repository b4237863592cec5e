use vstd::prelude::*;

verus! {

/// Why producing an embedding failed.
#[derive(Clone, Debug, PartialEq, Eq)]
pub enum EmbeddingError {
    ModelLoadError(String),
    TokenizationError(String),
    InferenceError(String),
}

/// The shape parameters of a supported sentence-embedding model.
#[derive(Clone, Copy, Debug, PartialEq, Eq, Structural)]
pub struct ModelConfig {
    max_length: usize,
    pad_token_id: i64,
    dimension: usize,
}

/// The model types that have a configuration.
pub open spec fn is_supported_model(model_type: Seq<char>) -> bool {
    model_type == "minilm"@ || model_type == "bge"@
}

impl ModelConfig {
    pub closed spec fn spec_max_length(&self) -> usize {
        self.max_length
    }

    pub closed spec fn spec_pad_token_id(&self) -> i64 {
        self.pad_token_id
    }

    pub closed spec fn spec_dimension(&self) -> usize {
        self.dimension
    }

    /// The configuration of `model_type`: `minilm` has 384 dimensions, `bge`
    /// 768; both take 512 tokens and pad with token 0.
    pub fn new(model_type: &str) -> (r: Self)
        requires
            is_supported_model(model_type@),
        ensures
            r.spec_max_length() == 512,
            r.spec_pad_token_id() == 0,
            model_type@ == "minilm"@ ==> r.spec_dimension() == 384,
            model_type@ != "minilm"@ ==> r.spec_dimension() == 768,
    {
        let minilm = String::from_str("minilm");
        if String::from_str(model_type) == minilm {
            ModelConfig { max_length: 512, pad_token_id: 0, dimension: 384 }
        } else {
            ModelConfig { max_length: 512, pad_token_id: 0, dimension: 768 }
        }
    }

    pub fn max_length(&self) -> (r: usize)
        ensures
            r == self.spec_max_length(),
    {
        self.max_length
    }

    pub fn pad_token_id(&self) -> (r: i64)
        ensures
            r == self.spec_pad_token_id(),
    {
        self.pad_token_id
    }

    pub fn dimension(&self) -> (r: usize)
        ensures
            r == self.spec_dimension(),
    {
        self.dimension
    }
}

} // verus!
