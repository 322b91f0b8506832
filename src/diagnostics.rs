//! Soft checks: sentinels that should hold but do not fail a decode. They are
//! reported as a list, in the order in which they stand in the message.
use vstd::prelude::*;

use crate::radar::{Radar, RadarView};
use crate::symbology::{layers_view, SymbologyLayerView, DIVIDER};

verus! {

/// A sentinel of a decoded message that does not hold.
#[derive(Clone, Copy, Debug, PartialEq, Eq, Structural)]
pub enum Warning {
    /// The product description's divider (held here) is not -1.
    DescriptionDivider(i16),
    /// The symbology header's divider (held here) is not -1.
    SymbologyDivider(i16),
    /// The divider of the layer at this index is not -1.
    LayerDivider(usize, i16),
}

/// The warning of the layer at index `i`, if its divider is not -1.
pub open spec fn layer_warning(i: int, layer: SymbologyLayerView) -> Seq<Warning> {
    match layer.frame {
        Some(f) => if f.divider != DIVIDER {
            seq![Warning::LayerDivider(i as usize, f.divider)]
        } else {
            Seq::empty()
        },
        None => Seq::empty(),
    }
}

/// The warnings of `layers`, in order.
pub open spec fn layer_warnings(layers: Seq<SymbologyLayerView>) -> Seq<Warning>
    decreases layers.len(),
{
    if layers.len() == 0 {
        Seq::empty()
    } else {
        layer_warnings(layers.drop_last()) + layer_warning(layers.len() - 1, layers.last())
    }
}

/// The warnings of a decoded message: its description's divider, then its
/// symbology header's divider, then the dividers of its layers.
pub open spec fn warnings_of(v: RadarView) -> Seq<Warning> {
    let description = if v.product_description.divider != DIVIDER {
        seq![Warning::DescriptionDivider(v.product_description.divider)]
    } else {
        Seq::empty()
    };
    match v.symbology {
        Some(b) => {
            let header = if b.header.divider != DIVIDER {
                seq![Warning::SymbologyDivider(b.header.divider)]
            } else {
                Seq::empty()
            };
            description + header + layer_warnings(b.layers)
        },
        None => description,
    }
}

impl Radar {
    /// The sentinels of this message that do not hold, in order.
    pub fn warnings(&self) -> (r: Vec<Warning>)
        ensures
            r@ == warnings_of(self@),
    {
        let mut out: Vec<Warning> = Vec::new();
        if self.product_description.divider != DIVIDER {
            out.push(Warning::DescriptionDivider(self.product_description.divider));
        }
        match &self.symbology {
            Some(block) => {
                if block.header.divider != DIVIDER {
                    out.push(Warning::SymbologyDivider(block.header.divider));
                }
                let ghost before = out@;
                let ghost layers = layers_view(block.layers@);
                let mut i: usize = 0;
                proof {
                    assert(layers.take(0) =~= Seq::<SymbologyLayerView>::empty());
                    assert(out@ =~= before + layer_warnings(layers.take(0)));
                }
                while i < block.layers.len()
                    invariant
                        i <= block.layers@.len(),
                        layers == layers_view(block.layers@),
                        out@ == before + layer_warnings(layers.take(i as int)),
                    decreases block.layers@.len() - i,
                {
                    let layer = &block.layers[i];
                    proof {
                        assert(layers.take(i + 1).drop_last() =~= layers.take(i as int));
                        assert(layers.take(i + 1).last() == layer@);
                    }
                    match layer.frame {
                        Some(f) => {
                            if f.divider != DIVIDER {
                                out.push(Warning::LayerDivider(i, f.divider));
                            }
                        },
                        None => {},
                    }
                    proof {
                        assert(out@ =~= before + layer_warnings(layers.take(i + 1)));
                    }
                    i += 1;
                }
                proof {
                    assert(layers.take(i as int) =~= layers);
                }
            },
            None => {},
        }
        out
    }
}

} // verus!
