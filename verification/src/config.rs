//! Model selection: stem labels, execution backends, and the preset
//! table of named separator configurations.
//!
//! A preset carries the integers that configure the spectral transform
//! and the chunk schedule, together with the stem labels of the model it
//! names. The model weights themselves, and the gain-correction constant
//! applied after separation, live with the inference runtime outside this
//! library.

use vstd::prelude::*;

verus! {

use crate::demix::DemixParams;

/// Execution backend requested for the external inference runtime.
#[derive(Clone, Copy, PartialEq, Eq, Structural)]
pub enum Backend {
    DirectML,
    CUDA,
    TensorRT,
    CPU,
}

/// What a model separates; determines how the two output stems are
/// labelled.
#[derive(Clone, Copy, PartialEq, Eq, Structural)]
pub enum MdxType {
    Vocals,
    Instrumental,
    Reverb,
}

impl MdxType {
    /// Label of the stem the model extracts.
    pub fn get_primary_stem(&self) -> (r: &'static str)
        ensures
            self is Vocals ==> r@ == "vocal"@,
            self is Instrumental ==> r@ == "inst"@,
            self is Reverb ==> r@ == "reverb"@,
    {
        match self {
            MdxType::Vocals => "vocal",
            MdxType::Instrumental => "inst",
            MdxType::Reverb => "reverb",
        }
    }

    /// Label of the complementary stem (the mixture minus the primary).
    pub fn get_secondary_stem(&self) -> (r: &'static str)
        ensures
            self is Vocals ==> r@ == "inst"@,
            self is Instrumental ==> r@ == "vocal"@,
            self is Reverb ==> r@ == "non_reverb"@,
    {
        match self {
            MdxType::Vocals => "inst",
            MdxType::Instrumental => "vocal",
            MdxType::Reverb => "non_reverb",
        }
    }
}

/// One named separator configuration: which weights file it refers to,
/// what it separates, and the integers of its analysis pipeline. The
/// segment count of the chunk schedule is `2^dim_t`.
pub struct MdxPreset {
    pub name: &'static str,
    pub filename: &'static str,
    pub model_type: MdxType,
    pub n_fft: usize,
    pub dim_t: u8,
    pub dim_f: usize,
}

impl MdxPreset {
    /// Every shipped preset satisfies this: an even FFT size from the
    /// known family, a segment exponent of 8 or 9, and a positive
    /// frequency cap.
    pub open spec fn valid(self) -> bool {
        &&& (self.n_fft == 5120 || self.n_fft == 6144 || self.n_fft == 7680)
        &&& (self.dim_t == 8 || self.dim_t == 9)
        &&& (self.dim_f == 2048 || self.dim_f == 3072)
    }
}

/// The segment count a preset's exponent denotes, `2^dim_t`.
pub fn segment_size_of(dim_t: u8) -> (r: usize)
    requires
        dim_t < 32,
    ensures
        r == 1usize << (dim_t as usize),
{
    1usize << (dim_t as usize)
}

/// The chunk-schedule parameters every valid preset derives are
/// runnable: a segment exponent of 8 or 9 makes the chunk far longer
/// than any of the preset FFT sizes.
pub proof fn lemma_preset_demix_wf(p: MdxPreset)
    requires
        p.valid(),
    ensures
        (DemixParams { n_fft: p.n_fft, segment_size: 1usize << (p.dim_t as usize) }).wf(),
{
    if p.dim_t == 8 {
        assert(1usize << 8usize == 256) by (bit_vector);
    } else {
        assert(1usize << 9usize == 512) by (bit_vector);
    }
}

/// The shipped preset table, in its fixed order.
pub fn mdx_presets() -> (r: Vec<MdxPreset>)
    ensures
        r@.len() == 19,
        forall|i: int| 0 <= i < r@.len() ==> (#[trigger] r@[i]).valid(),
        r@[0].name@ == "Kim Inst"@ && r@[0].n_fft == 7680 && r@[0].dim_t == 8 && r@[0].dim_f
            == 3072 && r@[0].model_type is Instrumental,
        r@[3].name@ == "Reverb HQ"@ && r@[3].n_fft == 6144 && r@[3].dim_t == 9 && r@[3].dim_f
            == 3072 && r@[3].model_type is Reverb,
        r@[13].name@ == "UVR-MDX-NET Inst Main"@ && r@[13].n_fft == 5120 && r@[13].dim_f == 2048,
        r@[16].name@ == "UVR-MDX-NET Main"@ && r@[16].filename@ == "UVR_MDXNET_Main.onnx"@
            && r@[16].n_fft == 7680 && r@[16].model_type is Vocals,
{
    let mut v: Vec<MdxPreset> = Vec::new();
    v.push(MdxPreset {
        name: "Kim Inst",
        filename: "Kim_Inst.onnx",
        model_type: MdxType::Instrumental,
        n_fft: 7680,
        dim_t: 8,
        dim_f: 3072,
    });
    v.push(MdxPreset {
        name: "Kim Vocal 1",
        filename: "Kim_Vocal_1.onnx",
        model_type: MdxType::Vocals,
        n_fft: 7680,
        dim_t: 8,
        dim_f: 3072,
    });
    v.push(MdxPreset {
        name: "Kim Vocal 2",
        filename: "Kim_Vocal_2.onnx",
        model_type: MdxType::Vocals,
        n_fft: 7680,
        dim_t: 8,
        dim_f: 3072,
    });
    v.push(MdxPreset {
        name: "Reverb HQ",
        filename: "Reverb_HQ_By_FoxJoy.onnx",
        model_type: MdxType::Reverb,
        n_fft: 6144,
        dim_t: 9,
        dim_f: 3072,
    });
    v.push(MdxPreset {
        name: "UVR-MDX-NET 1",
        filename: "UVR_MDXNET_1_9703.onnx",
        model_type: MdxType::Vocals,
        n_fft: 6144,
        dim_t: 8,
        dim_f: 2048,
    });
    v.push(MdxPreset {
        name: "UVR-MDX-NET 2",
        filename: "UVR_MDXNET_2_9682.onnx",
        model_type: MdxType::Vocals,
        n_fft: 6144,
        dim_t: 8,
        dim_f: 2048,
    });
    v.push(MdxPreset {
        name: "UVR-MDX-NET 3",
        filename: "UVR_MDXNET_3_9662.onnx",
        model_type: MdxType::Vocals,
        n_fft: 6144,
        dim_t: 8,
        dim_f: 2048,
    });
    v.push(MdxPreset {
        name: "UVR-MDX-NET Inst 1",
        filename: "UVR-MDX-NET-Inst_1.onnx",
        model_type: MdxType::Instrumental,
        n_fft: 7680,
        dim_t: 8,
        dim_f: 3072,
    });
    v.push(MdxPreset {
        name: "UVR-MDX-NET Inst 2",
        filename: "UVR-MDX-NET-Inst_2.onnx",
        model_type: MdxType::Instrumental,
        n_fft: 7680,
        dim_t: 8,
        dim_f: 3072,
    });
    v.push(MdxPreset {
        name: "UVR-MDX-NET Inst 3",
        filename: "UVR-MDX-NET-Inst_3.onnx",
        model_type: MdxType::Instrumental,
        n_fft: 7680,
        dim_t: 8,
        dim_f: 3072,
    });
    v.push(MdxPreset {
        name: "UVR-MDX-NET Inst HQ 1",
        filename: "UVR-MDX-NET-Inst_HQ_1.onnx",
        model_type: MdxType::Instrumental,
        n_fft: 6144,
        dim_t: 8,
        dim_f: 3072,
    });
    v.push(MdxPreset {
        name: "UVR-MDX-NET Inst HQ 2",
        filename: "UVR-MDX-NET-Inst_HQ_2.onnx",
        model_type: MdxType::Instrumental,
        n_fft: 6144,
        dim_t: 8,
        dim_f: 3072,
    });
    v.push(MdxPreset {
        name: "UVR-MDX-NET Inst HQ 3",
        filename: "UVR-MDX-NET-Inst_HQ_3.onnx",
        model_type: MdxType::Instrumental,
        n_fft: 6144,
        dim_t: 8,
        dim_f: 3072,
    });
    v.push(MdxPreset {
        name: "UVR-MDX-NET Inst Main",
        filename: "UVR-MDX-NET-Inst_Main.onnx",
        model_type: MdxType::Instrumental,
        n_fft: 5120,
        dim_t: 8,
        dim_f: 2048,
    });
    v.push(MdxPreset {
        name: "UVR-MDX-NET Karaoke",
        filename: "UVR_MDXNET_KARA.onnx",
        model_type: MdxType::Vocals,
        n_fft: 6144,
        dim_t: 8,
        dim_f: 2048,
    });
    v.push(MdxPreset {
        name: "UVR-MDX-NET Karaoke 2",
        filename: "UVR_MDXNET_KARA_2.onnx",
        model_type: MdxType::Instrumental,
        n_fft: 5120,
        dim_t: 8,
        dim_f: 2048,
    });
    v.push(MdxPreset {
        name: "UVR-MDX-NET Main",
        filename: "UVR_MDXNET_Main.onnx",
        model_type: MdxType::Vocals,
        n_fft: 7680,
        dim_t: 8,
        dim_f: 3072,
    });
    v.push(MdxPreset {
        name: "UVR-MDX-NET-Voc_FT",
        filename: "UVR-MDX-NET-Voc_FT.onnx",
        model_type: MdxType::Vocals,
        n_fft: 7680,
        dim_t: 8,
        dim_f: 3072,
    });
    v.push(MdxPreset {
        name: "UVR_MDXNET_9482",
        filename: "UVR_MDXNET_9482.onnx",
        model_type: MdxType::Vocals,
        n_fft: 6144,
        dim_t: 8,
        dim_f: 2048,
    });
    v
}

} // verus!
