use vstd::prelude::*;
use crate::random::uniform_between;

verus! {

/// Full intensity of a colour channel; a channel value `v` stands for the
/// fraction `v / CHANNEL_MAX`.
pub const CHANNEL_MAX: u64 = 1000;

/// A colour as four channel levels in thousandths of full intensity. A
/// level above `CHANNEL_MAX` is brighter than a renderer can show.
#[derive(Clone, Copy, Debug, PartialEq, Eq, Structural)]
pub struct Color {
    pub r: u64,
    pub g: u64,
    pub b: u64,
    pub a: u64,
}

/// Which of the red, green and blue channels carry the dominant level of a
/// generated colour; the others carry the secondary level.
#[derive(Clone, Copy, Debug, PartialEq, Eq, Structural)]
pub struct ChannelAssignment {
    pub red: bool,
    pub green: bool,
    pub blue: bool,
}

impl Color {
    /// Every channel lies between nothing and full intensity.
    pub open spec fn normalized(self) -> bool {
        &&& self.r <= CHANNEL_MAX
        &&& self.g <= CHANNEL_MAX
        &&& self.b <= CHANNEL_MAX
        &&& self.a <= CHANNEL_MAX
    }

    pub fn is_normalized(&self) -> (yes: bool)
        ensures
            yes == self.normalized(),
    {
        self.r <= CHANNEL_MAX && self.g <= CHANNEL_MAX && self.b <= CHANNEL_MAX && self.a
            <= CHANNEL_MAX
    }

    /// The fully opaque colour with the given red, green and blue levels.
    pub open spec fn spec_opaque(r: u64, g: u64, b: u64) -> Color {
        Color { r, g, b, a: CHANNEL_MAX }
    }

    pub open spec fn spec_white() -> Color {
        Color::spec_opaque(CHANNEL_MAX, CHANNEL_MAX, CHANNEL_MAX)
    }

    pub open spec fn spec_black() -> Color {
        Color::spec_opaque(0, 0, 0)
    }

    #[verifier::when_used_as_spec(spec_opaque)]
    pub fn opaque(r: u64, g: u64, b: u64) -> (color: Color)
        ensures
            color == Color::spec_opaque(r, g, b),
    {
        Color { r, g, b, a: CHANNEL_MAX }
    }

    #[verifier::when_used_as_spec(spec_white)]
    pub fn white() -> (color: Color)
        ensures
            color == Color::spec_white(),
    {
        Color::opaque(CHANNEL_MAX, CHANNEL_MAX, CHANNEL_MAX)
    }

    #[verifier::when_used_as_spec(spec_black)]
    pub fn black() -> (color: Color)
        ensures
            color == Color::spec_black(),
    {
        Color::opaque(0, 0, 0)
    }
}

/// A raw intensity drawn on the scale `0..=hi`, expressed in channel units
/// and rounded down.
pub open spec fn normalized_level(raw: int, hi: int) -> int {
    raw * CHANNEL_MAX / hi
}

/// The exclusive upper end of the secondary draw that goes with the raw
/// dominant draw `dominant`: the dominant fraction `dominant / hi` times
/// `scale`, rounded down.
pub open spec fn secondary_limit(dominant: int, scale: int, hi: int) -> int {
    dominant * scale / hi
}

/// The opaque colour whose flagged channels hold `dominant` and whose other
/// colour channels hold `secondary`.
pub open spec fn blended(dominant: int, secondary: int, assignment: ChannelAssignment) -> Color {
    Color {
        r: (if assignment.red { dominant } else { secondary }) as u64,
        g: (if assignment.green { dominant } else { secondary }) as u64,
        b: (if assignment.blue { dominant } else { secondary }) as u64,
        a: CHANNEL_MAX,
    }
}

/// The colour that the raw draws `dominant` and `secondary` give on the
/// scale `0..=hi`.
pub open spec fn color_of_draws(
    dominant: int,
    secondary: int,
    hi: int,
    assignment: ChannelAssignment,
) -> Color {
    blended(normalized_level(dominant, hi), normalized_level(secondary, hi), assignment)
}

/// `dominant` and `secondary` are draws that the palette generator can make
/// for the main range `lo..hi` and the given secondary scale.
pub open spec fn palette_draws(dominant: int, secondary: int, lo: int, hi: int, scale: int) -> bool {
    &&& lo <= dominant <= hi
    &&& lo < hi ==> dominant < hi
    &&& 0 <= secondary <= secondary_limit(dominant, scale, hi)
    &&& 0 < secondary_limit(dominant, scale, hi) ==> secondary < secondary_limit(
        dominant,
        scale,
        hi,
    )
}

/// `color` is one that the palette generator can produce from these
/// parameters.
pub open spec fn palette_color(
    color: Color,
    lo: int,
    hi: int,
    scale: int,
    assignment: ChannelAssignment,
) -> bool {
    exists|dominant: int, secondary: int|
        #[trigger] palette_draws(dominant, secondary, lo, hi, scale) && color == color_of_draws(
            dominant,
            secondary,
            hi,
            assignment,
        )
}

proof fn lemma_level_bounds(raw: int, hi: int)
    requires
        0 <= raw,
        0 < hi,
    ensures
        0 <= normalized_level(raw, hi) <= raw * CHANNEL_MAX,
        raw <= hi ==> normalized_level(raw, hi) <= CHANNEL_MAX,
{
    assert(0 <= raw * 1000 / hi <= raw * 1000) by (nonlinear_arith)
        requires
            0 <= raw,
            0 < hi,
    ;
    if raw <= hi {
        assert(raw * 1000 / hi <= 1000) by (nonlinear_arith)
            requires
                0 <= raw <= hi,
                0 < hi,
        ;
    }
}

proof fn lemma_level_monotonic(low: int, high: int, hi: int)
    requires
        0 <= low <= high,
        0 < hi,
    ensures
        normalized_level(low, hi) <= normalized_level(high, hi),
{
    assert(low * 1000 / hi <= high * 1000 / hi) by (nonlinear_arith)
        requires
            0 <= low <= high,
            0 < hi,
    ;
}

proof fn lemma_limit_bounds(dominant: int, scale: int, hi: int)
    requires
        0 <= dominant <= hi,
        0 <= scale,
        0 < hi,
    ensures
        0 <= secondary_limit(dominant, scale, hi) <= scale,
        scale <= hi ==> secondary_limit(dominant, scale, hi) <= dominant,
{
    assert(0 <= dominant * scale / hi <= scale) by (nonlinear_arith)
        requires
            0 <= dominant <= hi,
            0 <= scale,
            0 < hi,
    ;
    if scale <= hi {
        assert(dominant * scale / hi <= dominant) by (nonlinear_arith)
            requires
                0 <= dominant <= hi,
                0 <= scale <= hi,
                0 < hi,
        ;
    }
}

/// Builds the opaque colour whose flagged channels hold `dominant` and whose
/// other colour channels hold `secondary`.
pub fn blend(dominant: u64, secondary: u64, assignment: ChannelAssignment) -> (color: Color)
    ensures
        color == blended(dominant as int, secondary as int, assignment),
{
    Color {
        r: if assignment.red { dominant } else { secondary },
        g: if assignment.green { dominant } else { secondary },
        b: if assignment.blue { dominant } else { secondary },
        a: CHANNEL_MAX,
    }
}

/// Expresses a raw intensity on the scale `0..=hi` in channel units.
pub fn normalize_level(raw: u32, hi: u32) -> (level: u64)
    requires
        0 < hi,
    ensures
        level == normalized_level(raw as int, hi as int),
{
    raw as u64 * CHANNEL_MAX / hi as u64
}

/// Computes the exclusive upper end of the secondary draw for a raw dominant
/// draw that does not exceed `hi`.
pub fn secondary_draw_limit(dominant: u32, scale: u32, hi: u32) -> (limit: u32)
    requires
        0 < hi,
        dominant <= hi,
    ensures
        limit == secondary_limit(dominant as int, scale as int, hi as int),
        limit <= scale,
{
    proof {
        lemma_limit_bounds(dominant as int, scale as int, hi as int);
        assert(dominant * scale <= 0xffff_ffff * 0xffff_ffff) by (nonlinear_arith)
            requires
                0 <= dominant <= 0xffff_ffff,
                0 <= scale <= 0xffff_ffff,
        ;
    }
    let product: u64 = dominant as u64 * scale as u64;
    (product / hi as u64) as u32
}

/// Turns a pair of raw draws into a colour: both are normalised by `hi`, the
/// first goes to the flagged channels and the second to the others.
pub fn color_from_draws(
    dominant: u32,
    secondary: u32,
    hi: u32,
    assignment: ChannelAssignment,
) -> (color: Color)
    requires
        0 < hi,
    ensures
        color == color_of_draws(dominant as int, secondary as int, hi as int, assignment),
{
    let main = normalize_level(dominant, hi);
    let other = normalize_level(secondary, hi);
    blend(main, other, assignment)
}

/// Synthesises `count` colours.
///
/// For each colour a dominant intensity is drawn from `main_range` and a
/// secondary intensity from zero up to the dominant fraction times
/// `secondary_scale`; both are normalised by the upper end of `main_range`.
/// The flagged channels receive the dominant level, the others the
/// secondary level, and alpha is fully opaque.
pub fn generate_palette(
    count: usize,
    main_range: (u32, u32),
    secondary_scale: u32,
    assignment: ChannelAssignment,
) -> (palette: Vec<Color>)
    requires
        main_range.0 <= main_range.1,
        0 < main_range.1,
    ensures
        palette.len() == count,
        forall|i: int|
            0 <= i < count ==> palette_color(
                #[trigger] palette[i],
                main_range.0 as int,
                main_range.1 as int,
                secondary_scale as int,
                assignment,
            ),
        secondary_scale <= main_range.1 ==> forall|i: int|
            0 <= i < count ==> (#[trigger] palette[i]).normalized(),
{
    let lo = main_range.0;
    let hi = main_range.1;
    let mut palette: Vec<Color> = Vec::new();
    let mut made: usize = 0;
    while made < count
        invariant
            lo <= hi,
            0 < hi,
            made <= count,
            palette.len() == made,
            forall|i: int|
                0 <= i < made ==> palette_color(
                    #[trigger] palette[i],
                    lo as int,
                    hi as int,
                    secondary_scale as int,
                    assignment,
                ),
            secondary_scale <= hi ==> forall|i: int|
                0 <= i < made ==> (#[trigger] palette[i]).normalized(),
        decreases count - made,
    {
        let dominant = uniform_between(lo, hi);
        let limit = secondary_draw_limit(dominant, secondary_scale, hi);
        let secondary = uniform_between(0, limit);
        let color = color_from_draws(dominant, secondary, hi, assignment);
        proof {
            assert(palette_draws(
                dominant as int,
                secondary as int,
                lo as int,
                hi as int,
                secondary_scale as int,
            ));
            lemma_palette_color_normalized(
                color,
                lo as int,
                hi as int,
                secondary_scale as int,
                assignment,
            );
        }
        palette.push(color);
        made += 1;
    }
    palette
}

/// Every colour the generator can produce is opaque, holds one level in all
/// flagged channels and one level in all others; when the secondary scale
/// does not exceed the upper end of the main range, the secondary level is
/// no brighter than the dominant one and every channel is at most full
/// intensity.
pub proof fn lemma_palette_color_normalized(
    color: Color,
    lo: int,
    hi: int,
    scale: int,
    assignment: ChannelAssignment,
)
    requires
        0 <= lo <= hi,
        0 < hi,
        0 <= scale,
        palette_color(color, lo, hi, scale, assignment),
    ensures
        color.a == CHANNEL_MAX,
        exists|dominant: int, secondary: int|
            #![trigger blended(dominant, secondary, assignment)]
            {
                &&& color == blended(dominant, secondary, assignment)
                &&& normalized_level(lo, hi) <= dominant <= CHANNEL_MAX
                &&& 0 <= secondary
                &&& scale <= hi ==> secondary <= dominant
            },
        scale <= hi ==> color.normalized(),
{
    let (d, s) = choose|d: int, s: int|
        #[trigger] palette_draws(d, s, lo, hi, scale) && color == color_of_draws(
            d,
            s,
            hi,
            assignment,
        );
    lemma_level_bounds(d, hi);
    lemma_level_bounds(s, hi);
    lemma_level_monotonic(lo, d, hi);
    lemma_limit_bounds(d, scale, hi);
    let dominant = normalized_level(d, hi);
    let secondary = normalized_level(s, hi);
    assert(color == blended(dominant, secondary, assignment));
    if scale <= hi {
        lemma_level_monotonic(s, d, hi);
    }
}

} // verus!
