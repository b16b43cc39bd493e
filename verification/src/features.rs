use vstd::prelude::*;

verus! {

/// The processor and assembler configuration that instruction selection
/// and encoding depend on: the AVX level in use and the instruction set
/// extensions the target supports.
///
/// As on the real target, the AVX and AVX-512 extensions only count as
/// supported when the configured AVX level enables them: level 1 enables AVX,
/// level 2 AVX2 and level 3 the EVEX (AVX-512) encodings.
#[derive(Clone, Copy, Debug)]
pub struct CpuFeatures {
    /// The AVX level in use (0: SSE encodings only, 1: AVX, 2: AVX2, 3: AVX-512).
    pub use_avx: u8,
    /// Whether multi-byte address nops may be used for padding.
    pub use_address_nop: bool,
    /// The assembler runs with assertions enabled (a debug build); padding
    /// then consists of one-byte nops only, which debuggers disassemble.
    pub debug_build: bool,
    pub is_intel: bool,
    pub is_amd_family: bool,
    pub is_zx: bool,
    pub sse: bool,
    pub sse2: bool,
    pub sse3: bool,
    pub ssse3: bool,
    pub sse4_1: bool,
    pub sse4_2: bool,
    pub cmov: bool,
    pub mmx: bool,
    pub popcnt: bool,
    pub lzcnt: bool,
    pub bmi1: bool,
    pub bmi2: bool,
    pub aes: bool,
    pub clmul: bool,
    pub sha: bool,
    pub fma: bool,
    pub f16c: bool,
    pub adx: bool,
    pub gfni: bool,
    pub prefetchw_3dnow: bool,
    pub clflush: bool,
    pub clflushopt: bool,
    pub clwb: bool,
    pub vzeroupper: bool,
    pub avx512vl: bool,
    pub avx512bw: bool,
    pub avx512dq: bool,
    pub avx512cd: bool,
    pub avx512ifma: bool,
    pub avx512_vbmi: bool,
    pub avx512_vbmi2: bool,
    pub avx512_vpopcntdq: bool,
    pub avx512_bitalg: bool,
    pub avx512_vaes: bool,
    pub avx512_vpclmulqdq: bool,
    pub avx512_vnni: bool,
}

impl CpuFeatures {
    pub open spec fn spec_supports_avx(&self) -> bool {
        self.use_avx >= 1
    }

    /// AVX (VEX encoded) instructions are enabled.
    #[verifier::when_used_as_spec(spec_supports_avx)]
    pub fn supports_avx(&self) -> (r: bool)
        ensures
            r == self.spec_supports_avx(),
    {
        self.use_avx >= 1
    }

    pub open spec fn spec_supports_avx2(&self) -> bool {
        self.use_avx >= 2
    }

    /// AVX2 instructions are enabled.
    #[verifier::when_used_as_spec(spec_supports_avx2)]
    pub fn supports_avx2(&self) -> (r: bool)
        ensures
            r == self.spec_supports_avx2(),
    {
        self.use_avx >= 2
    }

    pub open spec fn spec_supports_evex(&self) -> bool {
        self.use_avx >= 3
    }

    /// AVX-512 foundation instructions (EVEX encoding) are enabled.
    #[verifier::when_used_as_spec(spec_supports_evex)]
    pub fn supports_evex(&self) -> (r: bool)
        ensures
            r == self.spec_supports_evex(),
    {
        self.use_avx >= 3
    }

    pub open spec fn spec_supports_sse(&self) -> bool {
        self.sse
    }

    /// The `sse` extension is supported.
    #[verifier::when_used_as_spec(spec_supports_sse)]
    pub fn supports_sse(&self) -> (r: bool)
        ensures
            r == self.spec_supports_sse(),
    {
        self.sse
    }

    pub open spec fn spec_supports_sse2(&self) -> bool {
        self.sse2
    }

    /// The `sse2` extension is supported.
    #[verifier::when_used_as_spec(spec_supports_sse2)]
    pub fn supports_sse2(&self) -> (r: bool)
        ensures
            r == self.spec_supports_sse2(),
    {
        self.sse2
    }

    pub open spec fn spec_supports_sse3(&self) -> bool {
        self.sse3
    }

    /// The `sse3` extension is supported.
    #[verifier::when_used_as_spec(spec_supports_sse3)]
    pub fn supports_sse3(&self) -> (r: bool)
        ensures
            r == self.spec_supports_sse3(),
    {
        self.sse3
    }

    pub open spec fn spec_supports_ssse3(&self) -> bool {
        self.ssse3
    }

    /// The `ssse3` extension is supported.
    #[verifier::when_used_as_spec(spec_supports_ssse3)]
    pub fn supports_ssse3(&self) -> (r: bool)
        ensures
            r == self.spec_supports_ssse3(),
    {
        self.ssse3
    }

    pub open spec fn spec_supports_sse4_1(&self) -> bool {
        self.sse4_1
    }

    /// The `sse4_1` extension is supported.
    #[verifier::when_used_as_spec(spec_supports_sse4_1)]
    pub fn supports_sse4_1(&self) -> (r: bool)
        ensures
            r == self.spec_supports_sse4_1(),
    {
        self.sse4_1
    }

    pub open spec fn spec_supports_sse4_2(&self) -> bool {
        self.sse4_2
    }

    /// The `sse4_2` extension is supported.
    #[verifier::when_used_as_spec(spec_supports_sse4_2)]
    pub fn supports_sse4_2(&self) -> (r: bool)
        ensures
            r == self.spec_supports_sse4_2(),
    {
        self.sse4_2
    }

    pub open spec fn spec_supports_cmov(&self) -> bool {
        self.cmov
    }

    /// The `cmov` extension is supported.
    #[verifier::when_used_as_spec(spec_supports_cmov)]
    pub fn supports_cmov(&self) -> (r: bool)
        ensures
            r == self.spec_supports_cmov(),
    {
        self.cmov
    }

    pub open spec fn spec_supports_mmx(&self) -> bool {
        self.mmx
    }

    /// The `mmx` extension is supported.
    #[verifier::when_used_as_spec(spec_supports_mmx)]
    pub fn supports_mmx(&self) -> (r: bool)
        ensures
            r == self.spec_supports_mmx(),
    {
        self.mmx
    }

    pub open spec fn spec_supports_popcnt(&self) -> bool {
        self.popcnt
    }

    /// The `popcnt` extension is supported.
    #[verifier::when_used_as_spec(spec_supports_popcnt)]
    pub fn supports_popcnt(&self) -> (r: bool)
        ensures
            r == self.spec_supports_popcnt(),
    {
        self.popcnt
    }

    pub open spec fn spec_supports_lzcnt(&self) -> bool {
        self.lzcnt
    }

    /// The `lzcnt` extension is supported.
    #[verifier::when_used_as_spec(spec_supports_lzcnt)]
    pub fn supports_lzcnt(&self) -> (r: bool)
        ensures
            r == self.spec_supports_lzcnt(),
    {
        self.lzcnt
    }

    pub open spec fn spec_supports_bmi1(&self) -> bool {
        self.bmi1
    }

    /// The `bmi1` extension is supported.
    #[verifier::when_used_as_spec(spec_supports_bmi1)]
    pub fn supports_bmi1(&self) -> (r: bool)
        ensures
            r == self.spec_supports_bmi1(),
    {
        self.bmi1
    }

    pub open spec fn spec_supports_bmi2(&self) -> bool {
        self.bmi2
    }

    /// The `bmi2` extension is supported.
    #[verifier::when_used_as_spec(spec_supports_bmi2)]
    pub fn supports_bmi2(&self) -> (r: bool)
        ensures
            r == self.spec_supports_bmi2(),
    {
        self.bmi2
    }

    pub open spec fn spec_supports_aes(&self) -> bool {
        self.aes
    }

    /// The `aes` extension is supported.
    #[verifier::when_used_as_spec(spec_supports_aes)]
    pub fn supports_aes(&self) -> (r: bool)
        ensures
            r == self.spec_supports_aes(),
    {
        self.aes
    }

    pub open spec fn spec_supports_clmul(&self) -> bool {
        self.clmul
    }

    /// The `clmul` extension is supported.
    #[verifier::when_used_as_spec(spec_supports_clmul)]
    pub fn supports_clmul(&self) -> (r: bool)
        ensures
            r == self.spec_supports_clmul(),
    {
        self.clmul
    }

    pub open spec fn spec_supports_sha(&self) -> bool {
        self.sha
    }

    /// The `sha` extension is supported.
    #[verifier::when_used_as_spec(spec_supports_sha)]
    pub fn supports_sha(&self) -> (r: bool)
        ensures
            r == self.spec_supports_sha(),
    {
        self.sha
    }

    pub open spec fn spec_supports_fma(&self) -> bool {
        self.fma
    }

    /// The `fma` extension is supported.
    #[verifier::when_used_as_spec(spec_supports_fma)]
    pub fn supports_fma(&self) -> (r: bool)
        ensures
            r == self.spec_supports_fma(),
    {
        self.fma
    }

    pub open spec fn spec_supports_f16c(&self) -> bool {
        self.f16c
    }

    /// The `f16c` extension is supported.
    #[verifier::when_used_as_spec(spec_supports_f16c)]
    pub fn supports_f16c(&self) -> (r: bool)
        ensures
            r == self.spec_supports_f16c(),
    {
        self.f16c
    }

    pub open spec fn spec_supports_adx(&self) -> bool {
        self.adx
    }

    /// The `adx` extension is supported.
    #[verifier::when_used_as_spec(spec_supports_adx)]
    pub fn supports_adx(&self) -> (r: bool)
        ensures
            r == self.spec_supports_adx(),
    {
        self.adx
    }

    pub open spec fn spec_supports_gfni(&self) -> bool {
        self.gfni
    }

    /// The `gfni` extension is supported.
    #[verifier::when_used_as_spec(spec_supports_gfni)]
    pub fn supports_gfni(&self) -> (r: bool)
        ensures
            r == self.spec_supports_gfni(),
    {
        self.gfni
    }

    pub open spec fn spec_supports_prefetchw_3dnow(&self) -> bool {
        self.prefetchw_3dnow
    }

    /// The `prefetchw_3dnow` extension is supported.
    #[verifier::when_used_as_spec(spec_supports_prefetchw_3dnow)]
    pub fn supports_prefetchw_3dnow(&self) -> (r: bool)
        ensures
            r == self.spec_supports_prefetchw_3dnow(),
    {
        self.prefetchw_3dnow
    }

    pub open spec fn spec_supports_clflush(&self) -> bool {
        self.clflush
    }

    /// The `clflush` extension is supported.
    #[verifier::when_used_as_spec(spec_supports_clflush)]
    pub fn supports_clflush(&self) -> (r: bool)
        ensures
            r == self.spec_supports_clflush(),
    {
        self.clflush
    }

    pub open spec fn spec_supports_clflushopt(&self) -> bool {
        self.clflushopt
    }

    /// The `clflushopt` extension is supported.
    #[verifier::when_used_as_spec(spec_supports_clflushopt)]
    pub fn supports_clflushopt(&self) -> (r: bool)
        ensures
            r == self.spec_supports_clflushopt(),
    {
        self.clflushopt
    }

    pub open spec fn spec_supports_clwb(&self) -> bool {
        self.clwb
    }

    /// The `clwb` extension is supported.
    #[verifier::when_used_as_spec(spec_supports_clwb)]
    pub fn supports_clwb(&self) -> (r: bool)
        ensures
            r == self.spec_supports_clwb(),
    {
        self.clwb
    }

    pub open spec fn spec_supports_avx512vl(&self) -> bool {
        self.use_avx >= 3 && self.avx512vl
    }

    /// The `avx512vl` extension is supported and enabled.
    #[verifier::when_used_as_spec(spec_supports_avx512vl)]
    pub fn supports_avx512vl(&self) -> (r: bool)
        ensures
            r == self.spec_supports_avx512vl(),
    {
        self.use_avx >= 3 && self.avx512vl
    }

    pub open spec fn spec_supports_avx512bw(&self) -> bool {
        self.use_avx >= 3 && self.avx512bw
    }

    /// The `avx512bw` extension is supported and enabled.
    #[verifier::when_used_as_spec(spec_supports_avx512bw)]
    pub fn supports_avx512bw(&self) -> (r: bool)
        ensures
            r == self.spec_supports_avx512bw(),
    {
        self.use_avx >= 3 && self.avx512bw
    }

    pub open spec fn spec_supports_avx512dq(&self) -> bool {
        self.use_avx >= 3 && self.avx512dq
    }

    /// The `avx512dq` extension is supported and enabled.
    #[verifier::when_used_as_spec(spec_supports_avx512dq)]
    pub fn supports_avx512dq(&self) -> (r: bool)
        ensures
            r == self.spec_supports_avx512dq(),
    {
        self.use_avx >= 3 && self.avx512dq
    }

    pub open spec fn spec_supports_avx512cd(&self) -> bool {
        self.use_avx >= 3 && self.avx512cd
    }

    /// The `avx512cd` extension is supported and enabled.
    #[verifier::when_used_as_spec(spec_supports_avx512cd)]
    pub fn supports_avx512cd(&self) -> (r: bool)
        ensures
            r == self.spec_supports_avx512cd(),
    {
        self.use_avx >= 3 && self.avx512cd
    }

    pub open spec fn spec_supports_avx512ifma(&self) -> bool {
        self.use_avx >= 3 && self.avx512ifma
    }

    /// The `avx512ifma` extension is supported and enabled.
    #[verifier::when_used_as_spec(spec_supports_avx512ifma)]
    pub fn supports_avx512ifma(&self) -> (r: bool)
        ensures
            r == self.spec_supports_avx512ifma(),
    {
        self.use_avx >= 3 && self.avx512ifma
    }

    pub open spec fn spec_supports_avx512_vbmi(&self) -> bool {
        self.use_avx >= 3 && self.avx512_vbmi
    }

    /// The `avx512_vbmi` extension is supported and enabled.
    #[verifier::when_used_as_spec(spec_supports_avx512_vbmi)]
    pub fn supports_avx512_vbmi(&self) -> (r: bool)
        ensures
            r == self.spec_supports_avx512_vbmi(),
    {
        self.use_avx >= 3 && self.avx512_vbmi
    }

    pub open spec fn spec_supports_avx512_vbmi2(&self) -> bool {
        self.use_avx >= 3 && self.avx512_vbmi2
    }

    /// The `avx512_vbmi2` extension is supported and enabled.
    #[verifier::when_used_as_spec(spec_supports_avx512_vbmi2)]
    pub fn supports_avx512_vbmi2(&self) -> (r: bool)
        ensures
            r == self.spec_supports_avx512_vbmi2(),
    {
        self.use_avx >= 3 && self.avx512_vbmi2
    }

    pub open spec fn spec_supports_avx512_vpopcntdq(&self) -> bool {
        self.use_avx >= 3 && self.avx512_vpopcntdq
    }

    /// The `avx512_vpopcntdq` extension is supported and enabled.
    #[verifier::when_used_as_spec(spec_supports_avx512_vpopcntdq)]
    pub fn supports_avx512_vpopcntdq(&self) -> (r: bool)
        ensures
            r == self.spec_supports_avx512_vpopcntdq(),
    {
        self.use_avx >= 3 && self.avx512_vpopcntdq
    }

    pub open spec fn spec_supports_avx512_bitalg(&self) -> bool {
        self.use_avx >= 3 && self.avx512_bitalg
    }

    /// The `avx512_bitalg` extension is supported and enabled.
    #[verifier::when_used_as_spec(spec_supports_avx512_bitalg)]
    pub fn supports_avx512_bitalg(&self) -> (r: bool)
        ensures
            r == self.spec_supports_avx512_bitalg(),
    {
        self.use_avx >= 3 && self.avx512_bitalg
    }

    pub open spec fn spec_supports_avx512_vaes(&self) -> bool {
        self.use_avx >= 3 && self.avx512_vaes
    }

    /// The `avx512_vaes` extension is supported and enabled.
    #[verifier::when_used_as_spec(spec_supports_avx512_vaes)]
    pub fn supports_avx512_vaes(&self) -> (r: bool)
        ensures
            r == self.spec_supports_avx512_vaes(),
    {
        self.use_avx >= 3 && self.avx512_vaes
    }

    pub open spec fn spec_supports_avx512_vpclmulqdq(&self) -> bool {
        self.use_avx >= 3 && self.avx512_vpclmulqdq
    }

    /// The `avx512_vpclmulqdq` extension is supported and enabled.
    #[verifier::when_used_as_spec(spec_supports_avx512_vpclmulqdq)]
    pub fn supports_avx512_vpclmulqdq(&self) -> (r: bool)
        ensures
            r == self.spec_supports_avx512_vpclmulqdq(),
    {
        self.use_avx >= 3 && self.avx512_vpclmulqdq
    }

    pub open spec fn spec_supports_avx512_vnni(&self) -> bool {
        self.use_avx >= 3 && self.avx512_vnni
    }

    /// The `avx512_vnni` extension is supported and enabled.
    #[verifier::when_used_as_spec(spec_supports_avx512_vnni)]
    pub fn supports_avx512_vnni(&self) -> (r: bool)
        ensures
            r == self.spec_supports_avx512_vnni(),
    {
        self.use_avx >= 3 && self.avx512_vnni
    }

    pub open spec fn spec_supports_vzeroupper(&self) -> bool {
        self.use_avx >= 1 && self.vzeroupper
    }

    /// `vzeroupper` is available and worth using.
    #[verifier::when_used_as_spec(spec_supports_vzeroupper)]
    pub fn supports_vzeroupper(&self) -> (r: bool)
        ensures
            r == self.spec_supports_vzeroupper(),
    {
        self.use_avx >= 1 && self.vzeroupper
    }

    pub open spec fn spec_supports_avx512vlbw(&self) -> bool {
        self.use_avx >= 3 && self.avx512vl && self.avx512bw
    }

    /// AVX-512 VL and BW are both enabled.
    #[verifier::when_used_as_spec(spec_supports_avx512vlbw)]
    pub fn supports_avx512vlbw(&self) -> (r: bool)
        ensures
            r == self.spec_supports_avx512vlbw(),
    {
        self.use_avx >= 3 && self.avx512vl && self.avx512bw
    }

    pub open spec fn spec_supports_avx512vldq(&self) -> bool {
        self.use_avx >= 3 && self.avx512vl && self.avx512dq
    }

    /// AVX-512 VL and DQ are both enabled.
    #[verifier::when_used_as_spec(spec_supports_avx512vldq)]
    pub fn supports_avx512vldq(&self) -> (r: bool)
        ensures
            r == self.spec_supports_avx512vldq(),
    {
        self.use_avx >= 3 && self.avx512vl && self.avx512dq
    }

    pub open spec fn spec_supports_avx512novl(&self) -> bool {
        self.use_avx >= 3 && !self.avx512vl
    }

    /// AVX-512 is enabled without the VL extension.
    #[verifier::when_used_as_spec(spec_supports_avx512novl)]
    pub fn supports_avx512novl(&self) -> (r: bool)
        ensures
            r == self.spec_supports_avx512novl(),
    {
        self.use_avx >= 3 && !self.avx512vl
    }

    /// Byte and word AVX-512 forms are unavailable: such instructions keep
    /// their VEX encoding.
    pub open spec fn spec_legacy_mode_bw(&self) -> bool {
        !self.spec_supports_avx512bw()
    }

    /// Doubleword and quadword AVX-512DQ forms are unavailable.
    pub open spec fn spec_legacy_mode_dq(&self) -> bool {
        !self.spec_supports_avx512dq()
    }

    /// Vector length extensions of AVX-512 are unavailable.
    pub open spec fn spec_legacy_mode_vl(&self) -> bool {
        !self.spec_supports_avx512vl()
    }

    /// Byte and word forms with vector length extensions are unavailable.
    pub open spec fn spec_legacy_mode_vlbw(&self) -> bool {
        !self.spec_supports_avx512vlbw()
    }

    #[verifier::when_used_as_spec(spec_legacy_mode_bw)]
    pub fn legacy_mode_bw(&self) -> (r: bool)
        ensures
            r == self.spec_legacy_mode_bw(),
    {
        !self.supports_avx512bw()
    }

    #[verifier::when_used_as_spec(spec_legacy_mode_dq)]
    pub fn legacy_mode_dq(&self) -> (r: bool)
        ensures
            r == self.spec_legacy_mode_dq(),
    {
        !self.supports_avx512dq()
    }

    #[verifier::when_used_as_spec(spec_legacy_mode_vl)]
    pub fn legacy_mode_vl(&self) -> (r: bool)
        ensures
            r == self.spec_legacy_mode_vl(),
    {
        !self.supports_avx512vl()
    }

    #[verifier::when_used_as_spec(spec_legacy_mode_vlbw)]
    pub fn legacy_mode_vlbw(&self) -> (r: bool)
        ensures
            r == self.spec_legacy_mode_vlbw(),
    {
        !self.supports_avx512vlbw()
    }
}

} // verus!
