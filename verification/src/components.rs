//! A data-level model of the scoreboard components the designer edits:
//! what kind each component is, which image asset it references, and
//! which font family its text style uses. The export bundle walks these
//! to gather the assets and fonts a board depends on.

use vstd::prelude::*;

use crate::text::{contains_string, has_label, lemma_has_label_push};

verus! {

/// The kinds of component a scoreboard can hold.
#[derive(Debug, Clone, Copy, PartialEq, Eq, Structural)]
pub enum ComponentType {
    Text,
    Image,
    Background,
    TennisGameScore,
    TennisSetScore,
    TennisMatchScore,
    TennisPlayerName,
    TennisDoublesName,
    TennisServingIndicator,
    TennisMatchTime,
    TennisPlayerFlag,
}

/// A component's kind-specific data, reduced to what the storage logic
/// reads: which image asset, if any, the component references.
#[derive(Debug, Clone, PartialEq, Eq)]
pub enum ComponentData {
    Text,
    Image { asset_id: Option<u64> },
    Background { asset_id: Option<u64> },
    TennisScore,
    TennisName,
    TennisDoubles,
    TennisServingIndicator,
    TennisMatchTime,
    TennisFlag,
}

/// The slice of a component's style the storage logic reads: its font
/// family, if one is set.
#[derive(Debug, Clone, PartialEq, Eq)]
pub struct ComponentStyle {
    pub font_family: Option<String>,
}

/// One component placed on a scoreboard.
#[derive(Debug, Clone, PartialEq, Eq)]
pub struct ScoreboardComponent {
    pub component_type: ComponentType,
    pub data: ComponentData,
    pub style: ComponentStyle,
}

/// The default data a freshly added component of this kind carries; an
/// image or background starts with no asset assigned.
pub open spec fn default_data_for(t: ComponentType) -> ComponentData {
    match t {
        ComponentType::Text => ComponentData::Text,
        ComponentType::Image => ComponentData::Image { asset_id: None },
        ComponentType::Background => ComponentData::Background { asset_id: None },
        ComponentType::TennisGameScore => ComponentData::TennisScore,
        ComponentType::TennisSetScore => ComponentData::TennisScore,
        ComponentType::TennisMatchScore => ComponentData::TennisScore,
        ComponentType::TennisPlayerName => ComponentData::TennisName,
        ComponentType::TennisDoublesName => ComponentData::TennisDoubles,
        ComponentType::TennisServingIndicator => ComponentData::TennisServingIndicator,
        ComponentType::TennisMatchTime => ComponentData::TennisMatchTime,
        ComponentType::TennisPlayerFlag => ComponentData::TennisFlag,
    }
}

impl ScoreboardComponent {
    /// A fresh component of the given kind, with its default data and no
    /// font family set.
    pub fn new(component_type: ComponentType) -> (r: ScoreboardComponent)
        ensures
            r.component_type == component_type,
            r.data == default_data_for(component_type),
            r.style.font_family is None,
    {
        let data = match component_type {
            ComponentType::Text => ComponentData::Text,
            ComponentType::Image => ComponentData::Image { asset_id: None },
            ComponentType::Background => ComponentData::Background { asset_id: None },
            ComponentType::TennisGameScore => ComponentData::TennisScore,
            ComponentType::TennisSetScore => ComponentData::TennisScore,
            ComponentType::TennisMatchScore => ComponentData::TennisScore,
            ComponentType::TennisPlayerName => ComponentData::TennisName,
            ComponentType::TennisDoublesName => ComponentData::TennisDoubles,
            ComponentType::TennisServingIndicator => ComponentData::TennisServingIndicator,
            ComponentType::TennisMatchTime => ComponentData::TennisMatchTime,
            ComponentType::TennisPlayerFlag => ComponentData::TennisFlag,
        };
        ScoreboardComponent { component_type, data, style: ComponentStyle { font_family: None } }
    }
}

/// The image asset a component references, if any: only image and
/// background components carry one.
pub open spec fn asset_id_of(c: ScoreboardComponent) -> Option<u64> {
    match c.data {
        ComponentData::Image { asset_id } => asset_id,
        ComponentData::Background { asset_id } => asset_id,
        _ => None,
    }
}

/// The set of asset ids a component sequence references.
pub open spec fn referenced_asset_ids(s: Seq<ScoreboardComponent>) -> Set<u64>
    decreases s.len(),
{
    if s.len() == 0 {
        Set::empty()
    } else {
        referenced_asset_ids(s.drop_last()) + match asset_id_of(s.last()) {
            Some(id) => Set::empty().insert(id),
            None => Set::<u64>::empty(),
        }
    }
}

/// The set of font families a component sequence uses.
pub open spec fn used_font_families(s: Seq<ScoreboardComponent>) -> Set<Seq<char>>
    decreases s.len(),
{
    if s.len() == 0 {
        Set::empty()
    } else {
        used_font_families(s.drop_last()) + match s.last().style.font_family {
            Some(f) => Set::empty().insert(f@),
            None => Set::<Seq<char>>::empty(),
        }
    }
}

/// Whether the id list already holds this id.
pub open spec fn has_id(r: Seq<u64>, id: u64) -> bool {
    exists|j: int| 0 <= j < r.len() && r[j] == id
}

fn contains_id(v: &Vec<u64>, id: u64) -> (r: bool)
    ensures
        r == has_id(v@, id),
{
    let n = v.len();
    let mut i: usize = 0;
    while i < n
        invariant
            n == v@.len(),
            i <= n,
            forall|j: int| 0 <= j < i ==> v@[j] != id,
        decreases n - i,
    {
        if v[i] == id {
            return true;
        }
        i += 1;
    }
    false
}

/// Gathers the image assets the components reference, deduplicated; the
/// order of the result is unspecified and no id appears twice.
pub fn collect_asset_ids(components: &[ScoreboardComponent]) -> (r: Vec<u64>)
    ensures
        forall|i: int, j: int| 0 <= i < j < r@.len() ==> r@[i] != r@[j],
        forall|id: u64| #[trigger] has_id(r@, id) <==> referenced_asset_ids(components@).contains(
            id,
        ),
{
    let mut ids: Vec<u64> = Vec::new();
    let n = components.len();
    let mut i: usize = 0;
    proof {
        assert(components@.take(0) =~= Seq::<ScoreboardComponent>::empty());
    }
    while i < n
        invariant
            n == components@.len(),
            i <= n,
            forall|p: int, q: int| 0 <= p < q < ids@.len() ==> ids@[p] != ids@[q],
            forall|id: u64| #[trigger] has_id(ids@, id) <==> referenced_asset_ids(
                components@.take(i as int),
            ).contains(id),
        decreases n - i,
    {
        proof {
            assert(components@.take(i as int + 1).drop_last() =~= components@.take(i as int));
            assert(components@.take(i as int + 1).last() == components@[i as int]);
        }
        let asset_id: Option<u64> = match &components[i].data {
            ComponentData::Image { asset_id } => *asset_id,
            ComponentData::Background { asset_id } => *asset_id,
            _ => None,
        };
        if let Some(id) = asset_id {
            if !contains_id(&ids, id) {
                let ghost prev = ids@;
                ids.push(id);
                proof {
                    assert forall|x: u64| #[trigger] has_id(ids@, x) implies (has_id(prev, x) || x
                        == id) by {
                        let j = choose|j: int| 0 <= j < ids@.len() && ids@[j] == x;
                        if j < prev.len() {
                            assert(prev[j] == x);
                        }
                    };
                    assert forall|x: u64| (has_id(prev, x) || x == id) implies #[trigger] has_id(
                        ids@,
                        x,
                    ) by {
                        if has_id(prev, x) {
                            let j = choose|j: int| 0 <= j < prev.len() && prev[j] == x;
                            assert(ids@[j] == x);
                        } else {
                            assert(ids@[prev.len() as int] == x);
                        }
                    };
                }
            }
        }
        i += 1;
    }
    proof {
        assert(components@.take(n as int) =~= components@);
    }
    ids
}

/// Gathers the font families the components use, deduplicated; the
/// order of the result is unspecified and no family appears twice.
pub fn collect_font_families(components: &[ScoreboardComponent]) -> (r: Vec<String>)
    ensures
        forall|i: int, j: int| 0 <= i < j < r@.len() ==> r@[i]@ != r@[j]@,
        forall|f: Seq<char>| #[trigger] has_label(r@, f) <==> used_font_families(
            components@,
        ).contains(f),
{
    let mut families: Vec<String> = Vec::new();
    let n = components.len();
    let mut i: usize = 0;
    proof {
        assert(components@.take(0) =~= Seq::<ScoreboardComponent>::empty());
    }
    while i < n
        invariant
            n == components@.len(),
            i <= n,
            forall|p: int, q: int| 0 <= p < q < families@.len() ==> families@[p]@ != families@[q]@,
            forall|f: Seq<char>| #[trigger] has_label(families@, f) <==> used_font_families(
                components@.take(i as int),
            ).contains(f),
        decreases n - i,
    {
        proof {
            assert(components@.take(i as int + 1).drop_last() =~= components@.take(i as int));
            assert(components@.take(i as int + 1).last() == components@[i as int]);
        }
        if let Some(family) = &components[i].style.font_family {
            if !contains_string(&families, family.as_str()) {
                proof {
                    lemma_has_label_push(families@, *family);
                }
                families.push(family.clone());
            }
        }
        i += 1;
    }
    proof {
        assert(components@.take(n as int) =~= components@);
    }
    families
}

} // verus!
