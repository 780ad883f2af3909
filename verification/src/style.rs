//! The map layers that are fetched and the colors that they are drawn in.

use vstd::prelude::*;

use crate::laws::style::law_one_style_for_each_vertex;

verus! {

/// The bit pattern of the binary32 number 0.
pub const ZERO: u32 = 0;

/// The bit pattern of the binary32 number 1.
pub const ONE: u32 = 0x3f80_0000;

/// The bit pattern of the binary32 number nearest to 0.7.
pub const SEVEN_TENTHS: u32 = 0x3f33_3333;

/// The bit pattern of the binary32 number 7.
pub const SEVEN: u32 = 0x40e0_0000;

/// The style of one vertex as the shaders read it. Each component of the color
/// is the bit pattern of an IEEE 754 binary32 number.
#[derive(Clone, Copy, PartialEq, Eq, Structural, Debug)]
pub struct ShaderFeatureStyle {
    pub red: u32,
    pub green: u32,
    pub blue: u32,
    pub alpha: u32,
}

impl ShaderFeatureStyle {
    /// Fully transparent black, for layers without a style of their own.
    pub open spec fn invisible() -> ShaderFeatureStyle {
        ShaderFeatureStyle { red: ZERO, green: ZERO, blue: ZERO, alpha: ZERO }
    }
}

/// The layers that are requested of every tile in view.
pub open spec fn requested_layers() -> Seq<Seq<char>> {
    seq!["transportation"@, "building"@, "boundary"@, "water"@]
}

/// The style that the features of a layer are drawn in.
pub open spec fn layer_style(name: Seq<char>) -> ShaderFeatureStyle {
    if name == "transportation"@ {
        ShaderFeatureStyle { red: ONE, green: ZERO, blue: ZERO, alpha: ONE }
    } else if name == "building"@ {
        ShaderFeatureStyle { red: ZERO, green: ONE, blue: ONE, alpha: ONE }
    } else if name == "boundary"@ {
        ShaderFeatureStyle { red: ZERO, green: ZERO, blue: ZERO, alpha: ONE }
    } else if name == "water"@ {
        ShaderFeatureStyle { red: ZERO, green: ZERO, blue: SEVEN_TENTHS, alpha: ONE }
    } else if name == "waterway"@ {
        ShaderFeatureStyle { red: ZERO, green: ZERO, blue: SEVEN, alpha: ONE }
    } else {
        ShaderFeatureStyle::invisible()
    }
}

/// The sum of the vertex counts.
pub open spec fn total(counts: Seq<u32>) -> nat
    decreases counts.len(),
{
    if counts.len() == 0 {
        0
    } else {
        total(counts.drop_last()) + counts.last() as nat
    }
}

/// One style for each vertex of the first `feature_count` features of a layer.
pub open spec fn vertex_styles(
    name: Seq<char>,
    feature_count: int,
    feature_indices: Seq<u32>,
) -> Seq<ShaderFeatureStyle> {
    Seq::new(total(feature_indices.take(feature_count)), |i: int| layer_style(name))
}

/// The names of strings.
pub open spec fn names_of(names: Seq<String>) -> Seq<Seq<char>> {
    names.map_values(|name: String| name@)
}

/// Lists the layers to request of a tile.
pub fn request_layers() -> (layers: Vec<String>)
    ensures
        names_of(layers@) == requested_layers(),
        layers@.len() == 4,
{
    let mut layers: Vec<String> = Vec::new();
    layers.push("transportation".to_owned());
    layers.push("building".to_owned());
    layers.push("boundary".to_owned());
    layers.push("water".to_owned());
    layers
}

/// Looks up the style of a layer by its name.
pub fn style_of_layer(name: &String) -> (style: ShaderFeatureStyle)
    ensures
        style == layer_style(name@),
{
    if *name == "transportation".to_owned() {
        ShaderFeatureStyle { red: ONE, green: ZERO, blue: ZERO, alpha: ONE }
    } else if *name == "building".to_owned() {
        ShaderFeatureStyle { red: ZERO, green: ONE, blue: ONE, alpha: ONE }
    } else if *name == "boundary".to_owned() {
        ShaderFeatureStyle { red: ZERO, green: ZERO, blue: ZERO, alpha: ONE }
    } else if *name == "water".to_owned() {
        ShaderFeatureStyle { red: ZERO, green: ZERO, blue: SEVEN_TENTHS, alpha: ONE }
    } else if *name == "waterway".to_owned() {
        ShaderFeatureStyle { red: ZERO, green: ZERO, blue: SEVEN, alpha: ONE }
    } else {
        ShaderFeatureStyle { red: ZERO, green: ZERO, blue: ZERO, alpha: ZERO }
    }
}

/// Repeats the style of a layer for each vertex of each of its features.
/// `feature_indices[i]` says how many vertices the feature `i` has; there may
/// be more of these numbers than features, but not fewer.
pub fn feature_metadata(name: &String, feature_count: usize, feature_indices: &Vec<u32>) -> (styles:
    Vec<ShaderFeatureStyle>)
    requires
        feature_count <= feature_indices@.len(),
    ensures
        styles@ == vertex_styles(name@, feature_count as int, feature_indices@),
        styles@.len() == feature_indices@.take(feature_count as int).fold_left(
            0int,
            |sum: int, count: u32| sum + count,
        ),
        forall|i: int| 0 <= i < styles@.len() ==> #[trigger] styles@[i] == layer_style(name@),
{
    let style = style_of_layer(name);
    let mut styles: Vec<ShaderFeatureStyle> = Vec::new();
    let mut feature: usize = 0;
    while feature < feature_count
        invariant
            feature <= feature_count <= feature_indices@.len(),
            style == layer_style(name@),
            styles@ == vertex_styles(name@, feature as int, feature_indices@),
        decreases feature_count - feature,
    {
        let count: u32 = feature_indices[feature];
        let ghost before = styles@;
        let mut vertex: u32 = 0;
        while vertex < count
            invariant
                vertex <= count,
                style == layer_style(name@),
                styles@ == before + Seq::new(vertex as nat, |i: int| layer_style(name@)),
            decreases count - vertex,
        {
            styles.push(style);
            vertex = vertex + 1;
        }
        proof {
            assert(feature_indices@.take(feature + 1).drop_last() == feature_indices@.take(
                feature as int,
            ));
        }
        feature = feature + 1;
    }
    proof {
        law_one_style_for_each_vertex(name@, feature_count as int, feature_indices@);
    }
    styles
}

} // verus!
