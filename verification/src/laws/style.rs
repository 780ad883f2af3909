//! What holds of the colors of layers.

use vstd::prelude::*;

use crate::style::{
    layer_style, names_of, requested_layers, vertex_styles, ShaderFeatureStyle, ONE,
};

verus! {

/// Every layer that is requested has a color that can be seen.
pub proof fn law_requested_layers_are_visible(i: int)
    requires
        0 <= i < requested_layers().len(),
    ensures
        layer_style(requested_layers()[i]).alpha == ONE,
        layer_style(requested_layers()[i]) != ShaderFeatureStyle::invisible(),
{
}

/// No two layers that are requested have the same color.
pub proof fn law_requested_layers_are_told_apart(i: int, j: int)
    requires
        0 <= i < j < requested_layers().len(),
    ensures
        layer_style(requested_layers()[i]) != layer_style(requested_layers()[j]),
{
    reveal_strlit("transportation");
    reveal_strlit("building");
    reveal_strlit("boundary");
    reveal_strlit("water");
    assert("transportation"@.len() == 14 && "building"@.len() == 8 && "boundary"@.len() == 8
        && "water"@.len() == 5);
    assert("building"@[1] == 'u' && "boundary"@[1] == 'o');
}

/// Four layers are requested of a tile, each of them once: those of roads,
/// buildings, borders and water.
pub proof fn law_requested_layers(name: Seq<char>)
    ensures
        requested_layers().len() == 4,
        requested_layers().no_duplicates(),
        requested_layers().contains(name) <==> (name == "transportation"@ || name == "building"@
            || name == "boundary"@ || name == "water"@),
        requested_layers()[0] == "transportation"@,
        requested_layers()[1] == "building"@,
        requested_layers()[2] == "boundary"@,
        requested_layers()[3] == "water"@,
{
    reveal_strlit("transportation");
    reveal_strlit("building");
    reveal_strlit("boundary");
    reveal_strlit("water");
    assert("transportation"@.len() == 14 && "building"@.len() == 8 && "boundary"@.len() == 8
        && "water"@.len() == 5);
    assert("building"@[1] == 'u' && "boundary"@[1] == 'o');
    let layers = requested_layers();
    assert(layers.contains(layers[0]) && layers.contains(layers[1]) && layers.contains(layers[2])
        && layers.contains(layers[3]));
}

/// The colors of layers, component by component: what is opaque, and which
/// layers have red, green and blue in them and how much. The numbers are the
/// patterns of 1, 0.7 and 7.
pub proof fn law_colors_of_layers(name: Seq<char>)
    ensures
        ({
            let style = layer_style(name);
            &&& style.alpha == 0x3f80_0000 || style.alpha == 0
            &&& style.alpha == 0x3f80_0000 <==> (name == "transportation"@ || name == "building"@
                || name == "boundary"@ || name == "water"@ || name == "waterway"@)
            &&& style.red == 0x3f80_0000 || style.red == 0
            &&& style.red == 0x3f80_0000 <==> name == "transportation"@
            &&& style.green == 0x3f80_0000 || style.green == 0
            &&& style.green == 0x3f80_0000 <==> name == "building"@
            &&& style.blue == 0x3f80_0000 <==> name == "building"@
            &&& style.blue == 0x3f33_3333 <==> name == "water"@
            &&& style.blue == 0x40e0_0000 <==> name == "waterway"@
            &&& style.blue == 0 <==> (name != "building"@ && name != "water"@ && name
                != "waterway"@)
        }),
{
    reveal_strlit("transportation");
    reveal_strlit("building");
    reveal_strlit("boundary");
    reveal_strlit("water");
    reveal_strlit("waterway");
    assert("transportation"@.len() == 14 && "building"@.len() == 8 && "boundary"@.len() == 8
        && "water"@.len() == 5 && "waterway"@.len() == 8);
    assert("building"@[0] == 'b' && "boundary"@[0] == 'b' && "waterway"@[0] == 'w');
    assert("building"@[1] == 'u' && "boundary"@[1] == 'o');
}

/// There are as many styles as the features have vertices together, and all of
/// them have the color of the layer.
pub proof fn law_one_style_for_each_vertex(
    name: Seq<char>,
    feature_count: int,
    feature_indices: Seq<u32>,
)
    requires
        0 <= feature_count <= feature_indices.len(),
    ensures
        vertex_styles(name, feature_count, feature_indices).len() == feature_indices.take(
            feature_count,
        ).fold_left(0int, |sum: int, count: u32| sum + count),
        forall|i: int|
            0 <= i < vertex_styles(name, feature_count, feature_indices).len()
                ==> #[trigger] vertex_styles(name, feature_count, feature_indices)[i]
                == layer_style(name),
    decreases feature_count,
{
    let counts = feature_indices.take(feature_count);
    if feature_count > 0 {
        law_one_style_for_each_vertex(name, feature_count - 1, feature_indices);
        assert(counts.drop_last() == feature_indices.take(feature_count - 1));
        assert(counts.last() == feature_indices[feature_count - 1]);
    }
}

/// One more feature adds as many styles as it has vertices.
pub proof fn law_each_feature_adds_its_vertices(
    name: Seq<char>,
    feature: int,
    feature_indices: Seq<u32>,
)
    requires
        0 <= feature < feature_indices.len(),
    ensures
        vertex_styles(name, 0, feature_indices).len() == 0,
        vertex_styles(name, feature + 1, feature_indices).len() == vertex_styles(
            name,
            feature,
            feature_indices,
        ).len() + feature_indices[feature],
{
    assert(feature_indices.take(feature + 1).drop_last() == feature_indices.take(feature));
}

/// A list of names has the characters of each of the strings, in their order.
pub proof fn law_names_are_those_of_the_strings(strings: Seq<String>)
    ensures
        names_of(strings).len() == strings.len(),
        forall|i: int| 0 <= i < strings.len() ==> #[trigger] names_of(strings)[i] == strings[i]@,
{
}

} // verus!
