use vstd::prelude::*;

verus! {

/// The two model variants under comparison.
#[derive(Clone, Copy, Debug, PartialEq, Eq, Structural)]
pub enum ModelType {
    Q4,
    Q5,
}

impl ModelType {
    pub open spec fn label_spec(&self) -> Seq<char> {
        match self {
            ModelType::Q4 => "Q4"@,
            ModelType::Q5 => "Q5"@,
        }
    }

    /// The short name of the variant.
    pub fn label(&self) -> (r: String)
        ensures
            r@ == self.label_spec(),
    {
        match self {
            ModelType::Q4 => String::from_str("Q4"),
            ModelType::Q5 => String::from_str("Q5"),
        }
    }
}

/// Where the endpoint is and which models stand for the two variants.
#[derive(Clone, Debug)]
pub struct BenchConfig {
    pub base_url: String,
    pub q4_model: String,
    pub q5_model: String,
}

impl BenchConfig {
    pub open spec fn model_spec(&self, m: ModelType) -> Seq<char> {
        match m {
            ModelType::Q4 => self.q4_model@,
            ModelType::Q5 => self.q5_model@,
        }
    }

    /// A local endpoint with the two contract-analysis models.
    pub fn new() -> (r: BenchConfig)
        ensures
            r.base_url@ == "http://localhost:11434"@,
            r.q4_model@ == "qwen-contract:latest"@,
            r.q5_model@ == "qwen-contract-q5:latest"@,
    {
        BenchConfig {
            base_url: String::from_str("http://localhost:11434"),
            q4_model: String::from_str("qwen-contract:latest"),
            q5_model: String::from_str("qwen-contract-q5:latest"),
        }
    }

    /// The model name of a variant.
    pub fn model_name(&self, m: ModelType) -> (r: String)
        ensures
            r@ == self.model_spec(m),
    {
        match m {
            ModelType::Q4 => self.q4_model.clone(),
            ModelType::Q5 => self.q5_model.clone(),
        }
    }

    /// The address of the generation call.
    pub fn generate_url(&self) -> (r: String)
        ensures
            r@ == self.base_url@ + "/api/generate"@,
    {
        self.base_url.clone().concat("/api/generate")
    }

    /// The address of the connectivity probe.
    pub fn tags_url(&self) -> (r: String)
        ensures
            r@ == self.base_url@ + "/api/tags"@,
    {
        self.base_url.clone().concat("/api/tags")
    }

    /// The address of the listing of loaded models.
    pub fn ps_url(&self) -> (r: String)
        ensures
            r@ == self.base_url@ + "/api/ps"@,
    {
        self.base_url.clone().concat("/api/ps")
    }
}

/// The body of one generation call; never streamed.
#[derive(Clone, Debug)]
pub struct BenchmarkRequest {
    pub model: String,
    pub prompt: String,
    pub stream: bool,
}

impl BenchmarkRequest {
    pub fn new(model: String, prompt: String) -> (r: BenchmarkRequest)
        ensures
            r.model == model,
            r.prompt == prompt,
            !r.stream,
    {
        BenchmarkRequest { model, prompt, stream: false }
    }
}

} // verus!
