//! The closed catalogue of compute backends a generated project can target.

use vstd::prelude::*;

verus! {

/// A compute backend of Burn that a generated project can be set up for.
#[derive(Debug, Copy, Clone, PartialEq, Eq, Structural)]
pub enum Backends {
    Candle,
    CandleCuda,
    CandleMetal,
    Cuda,
    Rocm,
    NdArray,
    Tch,
    Vulkan,
    WebGpu,
    Metal,
    Wgpu,
    Cpu,
}

impl Backends {
    /// The Rust identifier that generated source uses for the backend type.
    ///
    /// The three Candle builds share one identifier: they differ only in what
    /// is compiled in, not in the type the generated code names.
    pub open spec fn ident(self) -> Seq<char> {
        match self {
            Backends::Candle | Backends::CandleCuda | Backends::CandleMetal => "Candle"@,
            Backends::Cuda => "Cuda"@,
            Backends::Rocm => "Rocm"@,
            Backends::NdArray => "NdArray"@,
            Backends::Tch => "LibTorch"@,
            Backends::Vulkan => "Vulkan"@,
            Backends::WebGpu => "WebGpu"@,
            Backends::Metal => "Metal"@,
            Backends::Wgpu => "Wgpu"@,
            Backends::Cpu => "Cpu"@,
        }
    }

    /// The cargo feature of `burn` that compiles the backend in.
    pub open spec fn feature(self) -> Seq<char> {
        match self {
            Backends::Candle => "candle"@,
            Backends::CandleCuda => "candle-cuda"@,
            Backends::CandleMetal => "candle-metal"@,
            Backends::Cuda => "cuda"@,
            Backends::Rocm => "rocm"@,
            Backends::NdArray => "ndarray"@,
            Backends::Tch => "tch"@,
            Backends::Vulkan => "vulkan"@,
            Backends::WebGpu => "webgpu"@,
            Backends::Metal => "metal"@,
            Backends::Wgpu => "wgpu"@,
            Backends::Cpu => "cpu"@,
        }
    }

    /// Returns the Rust identifier for the corresponding Burn backend.
    pub fn as_ident(&self) -> (name: &'static str)
        ensures
            name@ == self.ident(),
    {
        match self {
            Backends::Candle | Backends::CandleCuda | Backends::CandleMetal => "Candle",
            Backends::Cuda => "Cuda",
            Backends::Rocm => "Rocm",
            Backends::NdArray => "NdArray",
            Backends::Tch => "LibTorch",
            Backends::Vulkan => "Vulkan",
            Backends::WebGpu => "WebGpu",
            Backends::Metal => "Metal",
            Backends::Wgpu => "Wgpu",
            Backends::Cpu => "Cpu",
        }
    }

    /// Returns the name of the burn feature that enables the backend.
    pub fn as_feature(&self) -> (name: &'static str)
        ensures
            name@ == self.feature(),
    {
        match self {
            Backends::Candle => "candle",
            Backends::CandleCuda => "candle-cuda",
            Backends::CandleMetal => "candle-metal",
            Backends::Cuda => "cuda",
            Backends::Rocm => "rocm",
            Backends::NdArray => "ndarray",
            Backends::Tch => "tch",
            Backends::Vulkan => "vulkan",
            Backends::WebGpu => "webgpu",
            Backends::Metal => "metal",
            Backends::Wgpu => "wgpu",
            Backends::Cpu => "cpu",
        }
    }

    /// Every backend of the catalogue, in declaration order.
    pub fn all() -> (list: Vec<Backends>)
        ensures
            list@ =~= seq![
                Backends::Candle,
                Backends::CandleCuda,
                Backends::CandleMetal,
                Backends::Cuda,
                Backends::Rocm,
                Backends::NdArray,
                Backends::Tch,
                Backends::Vulkan,
                Backends::WebGpu,
                Backends::Metal,
                Backends::Wgpu,
                Backends::Cpu,
            ],
            forall|b: Backends| list@.contains(b),
    {
        let list = vec![
            Backends::Candle,
            Backends::CandleCuda,
            Backends::CandleMetal,
            Backends::Cuda,
            Backends::Rocm,
            Backends::NdArray,
            Backends::Tch,
            Backends::Vulkan,
            Backends::WebGpu,
            Backends::Metal,
            Backends::Wgpu,
            Backends::Cpu,
        ];
        proof {
            assert forall|b: Backends| list@.contains(b) by {
                let i: int = match b {
                    Backends::Candle => 0,
                    Backends::CandleCuda => 1,
                    Backends::CandleMetal => 2,
                    Backends::Cuda => 3,
                    Backends::Rocm => 4,
                    Backends::NdArray => 5,
                    Backends::Tch => 6,
                    Backends::Vulkan => 7,
                    Backends::WebGpu => 8,
                    Backends::Metal => 9,
                    Backends::Wgpu => 10,
                    Backends::Cpu => 11,
                };
                assert(list@[i] == b);
            }
        }
        list
    }
}

/// Reveals the characters of every feature name of the catalogue.
proof fn reveal_feature_names()
    ensures
        "candle"@.len() == 6 && "candle"@[0] == 'c',
        "candle-cuda"@.len() == 11,
        "candle-metal"@.len() == 12,
        "cuda"@.len() == 4 && "cuda"@[0] == 'c',
        "rocm"@.len() == 4 && "rocm"@[0] == 'r',
        "ndarray"@.len() == 7,
        "tch"@.len() == 3 && "tch"@[0] == 't',
        "vulkan"@.len() == 6 && "vulkan"@[0] == 'v',
        "webgpu"@.len() == 6 && "webgpu"@[0] == 'w',
        "metal"@.len() == 5,
        "wgpu"@.len() == 4 && "wgpu"@[0] == 'w',
        "cpu"@.len() == 3 && "cpu"@[0] == 'c',
{
    reveal_strlit("candle");
    reveal_strlit("candle-cuda");
    reveal_strlit("candle-metal");
    reveal_strlit("cuda");
    reveal_strlit("rocm");
    reveal_strlit("ndarray");
    reveal_strlit("tch");
    reveal_strlit("vulkan");
    reveal_strlit("webgpu");
    reveal_strlit("metal");
    reveal_strlit("wgpu");
    reveal_strlit("cpu");
}

/// No two backends share a feature name: a feature name identifies its
/// backend.
pub proof fn lemma_features_pairwise_distinct(a: Backends, b: Backends)
    ensures
        a.feature() == b.feature() <==> a == b,
{
    reveal_feature_names();
}

/// The identifier is coarser than the feature name: the Candle builds are told
/// apart by their features alone.
pub proof fn lemma_candle_builds_share_ident()
    ensures
        Backends::Candle.ident() == Backends::CandleCuda.ident(),
        Backends::Candle.ident() == Backends::CandleMetal.ident(),
        Backends::Candle.feature() != Backends::CandleCuda.feature(),
        Backends::Candle.feature() != Backends::CandleMetal.feature(),
        Backends::CandleCuda.feature() != Backends::CandleMetal.feature(),
{
    lemma_features_pairwise_distinct(Backends::Candle, Backends::CandleCuda);
    lemma_features_pairwise_distinct(Backends::Candle, Backends::CandleMetal);
    lemma_features_pairwise_distinct(Backends::CandleCuda, Backends::CandleMetal);
}

} // verus!
