//! The genetics core: genes with dominance and stat effects, phenotype
//! resolution, and the splicing of two parents' genes into a seed.

use vstd::prelude::*;
use crate::name::{combine_names, combined_name_ok, PlantName};
use crate::rng::RandomSource;

verus! {

/// The shape of a plant's stem.
#[derive(Hash, PartialEq, Eq, Clone, Copy, Structural, Debug)]
pub enum StemStyle {
    Curvy,
    Loopy,
    Angular,
    Wiggly,
}

/// The color of a plant's stem.
#[derive(Hash, PartialEq, Eq, Clone, Copy, Structural, Debug)]
pub enum StemColor {
    Brown,
    Green,
    Blue,
}

/// The shape of a plant's fruit.
#[derive(Hash, PartialEq, Eq, Clone, Copy, Structural, Debug)]
pub enum FruitStyle {
    Circle,
    Square,
    Triangle,
}

/// The color of a plant's fruit.
#[derive(Hash, PartialEq, Eq, Clone, Copy, Structural, Debug)]
pub enum FruitColor {
    Red,
    Purple,
    Yellow,
}

/// Whether a gene takes precedence over recessive genes of its category.
#[derive(PartialEq, Eq, Clone, Copy, Structural, Debug)]
pub enum GeneDominance {
    Dominant,
    Recessive,
}

/// A trait category together with its concrete variant; carrying the
/// variant inside the category makes a mismatch between the two
/// structurally impossible.
#[derive(Hash, PartialEq, Eq, Clone, Copy, Structural, Debug)]
pub enum GeneCategory {
    StemStyle(StemStyle),
    StemColor(StemColor),
    FruitStyle(FruitStyle),
    FruitColor(FruitColor),
}

/// A trait category without its variant payload.
#[derive(PartialEq, Eq, Clone, Copy, Structural, Debug)]
pub enum TraitKind {
    StemStyle,
    StemColor,
    FruitStyle,
    FruitColor,
}

/// The category a trait variant belongs to.
pub open spec fn kind_of(c: GeneCategory) -> TraitKind {
    match c {
        GeneCategory::StemStyle(_) => TraitKind::StemStyle,
        GeneCategory::StemColor(_) => TraitKind::StemColor,
        GeneCategory::FruitStyle(_) => TraitKind::FruitStyle,
        GeneCategory::FruitColor(_) => TraitKind::FruitColor,
    }
}

/// The fixed dominance of each trait variant.
pub open spec fn category_dominance(c: GeneCategory) -> GeneDominance {
    match c {
        GeneCategory::StemStyle(StemStyle::Curvy) => GeneDominance::Dominant,
        GeneCategory::StemStyle(StemStyle::Loopy) => GeneDominance::Recessive,
        GeneCategory::StemStyle(StemStyle::Angular) => GeneDominance::Recessive,
        GeneCategory::StemStyle(StemStyle::Wiggly) => GeneDominance::Dominant,
        GeneCategory::StemColor(StemColor::Brown) => GeneDominance::Dominant,
        GeneCategory::StemColor(StemColor::Green) => GeneDominance::Dominant,
        GeneCategory::StemColor(StemColor::Blue) => GeneDominance::Recessive,
        GeneCategory::FruitStyle(FruitStyle::Circle) => GeneDominance::Dominant,
        GeneCategory::FruitStyle(FruitStyle::Square) => GeneDominance::Dominant,
        GeneCategory::FruitStyle(FruitStyle::Triangle) => GeneDominance::Recessive,
        GeneCategory::FruitColor(FruitColor::Red) => GeneDominance::Dominant,
        GeneCategory::FruitColor(FruitColor::Purple) => GeneDominance::Dominant,
        GeneCategory::FruitColor(FruitColor::Yellow) => GeneDominance::Recessive,
    }
}

/// The fixed intelligence effect of each trait variant.
pub open spec fn category_intelligence_effect(c: GeneCategory) -> int {
    match c {
        GeneCategory::StemStyle(StemStyle::Curvy) => -1,
        GeneCategory::StemStyle(StemStyle::Loopy) => 4,
        GeneCategory::StemStyle(StemStyle::Angular) => 5,
        GeneCategory::StemStyle(StemStyle::Wiggly) => 1,
        GeneCategory::StemColor(StemColor::Brown) => -1,
        GeneCategory::StemColor(StemColor::Green) => -1,
        GeneCategory::StemColor(StemColor::Blue) => 5,
        GeneCategory::FruitStyle(FruitStyle::Circle) => -1,
        GeneCategory::FruitStyle(FruitStyle::Square) => 3,
        GeneCategory::FruitStyle(FruitStyle::Triangle) => 4,
        GeneCategory::FruitColor(FruitColor::Red) => -1,
        GeneCategory::FruitColor(FruitColor::Purple) => 2,
        GeneCategory::FruitColor(FruitColor::Yellow) => 4,
    }
}

/// The fixed pest-resistance effect of each trait variant.
pub open spec fn category_pest_resistance_effect(c: GeneCategory) -> int {
    match c {
        GeneCategory::StemStyle(StemStyle::Curvy) => 1,
        GeneCategory::StemStyle(StemStyle::Loopy) => -1,
        GeneCategory::StemStyle(StemStyle::Angular) => -1,
        GeneCategory::StemStyle(StemStyle::Wiggly) => 3,
        GeneCategory::StemColor(StemColor::Brown) => 4,
        GeneCategory::StemColor(StemColor::Green) => 2,
        GeneCategory::StemColor(StemColor::Blue) => -1,
        GeneCategory::FruitStyle(FruitStyle::Circle) => 3,
        GeneCategory::FruitStyle(FruitStyle::Square) => -1,
        GeneCategory::FruitStyle(FruitStyle::Triangle) => 1,
        GeneCategory::FruitColor(FruitColor::Red) => 3,
        GeneCategory::FruitColor(FruitColor::Purple) => 1,
        GeneCategory::FruitColor(FruitColor::Yellow) => -3,
    }
}

/// An immutable heritable unit: one trait variant with its fixed dominance
/// and stat effects. Genes can only be built through the constructors, so
/// every gene agrees with the fixed per-variant table.
#[derive(PartialEq, Eq, Clone, Copy, Structural, Debug)]
pub struct Gene {
    category: GeneCategory,
    dominance: GeneDominance,
    intelligence_effect: i32,
    pest_resistance_effect: i32,
}

impl Gene {
    #[verifier::type_invariant]
    spec fn canonical(self) -> bool {
        &&& self.dominance == category_dominance(self.category)
        &&& self.intelligence_effect as int == category_intelligence_effect(self.category)
        &&& self.pest_resistance_effect as int == category_pest_resistance_effect(self.category)
    }

    /// The trait category (with its variant) this gene encodes.
    pub closed spec fn spec_category(self) -> GeneCategory {
        self.category
    }

    /// This gene's dominance.
    pub closed spec fn spec_dominance(self) -> GeneDominance {
        self.dominance
    }

    /// This gene's contribution to intelligence when expressed.
    pub closed spec fn spec_intelligence_effect(self) -> int {
        self.intelligence_effect as int
    }

    /// This gene's contribution to pest resistance when expressed.
    pub closed spec fn spec_pest_resistance_effect(self) -> int {
        self.pest_resistance_effect as int
    }
}

/// The unique gene of a trait variant, as fixed by the per-variant table.
pub closed spec fn gene_for(c: GeneCategory) -> Gene {
    Gene {
        category: c,
        dominance: category_dominance(c),
        intelligence_effect: category_intelligence_effect(c) as i32,
        pest_resistance_effect: category_pest_resistance_effect(c) as i32,
    }
}

/// The table entries behind `gene_for`, stated over its public accessors.
pub broadcast proof fn lemma_gene_for(c: GeneCategory)
    ensures
        (#[trigger] gene_for(c)).spec_category() == c,
        gene_for(c).spec_dominance() == category_dominance(c),
        gene_for(c).spec_intelligence_effect() == category_intelligence_effect(c),
        gene_for(c).spec_pest_resistance_effect() == category_pest_resistance_effect(c),
{
}

/// The fixed default trait variant of each category, expressed (and
/// spliced in) when a plant has no gene of that category.
pub open spec fn default_category(k: TraitKind) -> GeneCategory {
    match k {
        TraitKind::StemStyle => GeneCategory::StemStyle(StemStyle::Curvy),
        TraitKind::StemColor => GeneCategory::StemColor(StemColor::Green),
        TraitKind::FruitStyle => GeneCategory::FruitStyle(FruitStyle::Circle),
        TraitKind::FruitColor => GeneCategory::FruitColor(FruitColor::Red),
    }
}

/// The default gene of a category.
pub open spec fn default_gene(k: TraitKind) -> Gene {
    gene_for(default_category(k))
}

impl Gene {
    /// Builds the gene of a trait variant from the fixed table.
    pub fn new_with_category(category: GeneCategory) -> (g: Gene)
        ensures
            g == gene_for(category),
    {
        match category {
            GeneCategory::StemStyle(x) => Gene::new_with_stem_style(x),
            GeneCategory::StemColor(x) => Gene::new_with_stem_color(x),
            GeneCategory::FruitStyle(x) => Gene::new_with_fruit_style(x),
            GeneCategory::FruitColor(x) => Gene::new_with_fruit_color(x),
        }
    }

    fn new_with_stem_style(style: StemStyle) -> (g: Gene)
        ensures
            g == gene_for(GeneCategory::StemStyle(style)),
    {
        let (dominance, intelligence_effect, pest_resistance_effect): (GeneDominance, i32, i32) =
            match style {
            StemStyle::Curvy => (GeneDominance::Dominant, -1, 1),
            StemStyle::Loopy => (GeneDominance::Recessive, 4, -1),
            StemStyle::Angular => (GeneDominance::Recessive, 5, -1),
            StemStyle::Wiggly => (GeneDominance::Dominant, 1, 3),
        };
        Gene {
            category: GeneCategory::StemStyle(style),
            dominance,
            intelligence_effect,
            pest_resistance_effect,
        }
    }

    fn new_with_stem_color(color: StemColor) -> (g: Gene)
        ensures
            g == gene_for(GeneCategory::StemColor(color)),
    {
        let (dominance, intelligence_effect, pest_resistance_effect): (GeneDominance, i32, i32) =
            match color {
            StemColor::Brown => (GeneDominance::Dominant, -1, 4),
            StemColor::Green => (GeneDominance::Dominant, -1, 2),
            StemColor::Blue => (GeneDominance::Recessive, 5, -1),
        };
        Gene {
            category: GeneCategory::StemColor(color),
            dominance,
            intelligence_effect,
            pest_resistance_effect,
        }
    }

    fn new_with_fruit_style(style: FruitStyle) -> (g: Gene)
        ensures
            g == gene_for(GeneCategory::FruitStyle(style)),
    {
        let (dominance, intelligence_effect, pest_resistance_effect): (GeneDominance, i32, i32) =
            match style {
            FruitStyle::Circle => (GeneDominance::Dominant, -1, 3),
            FruitStyle::Square => (GeneDominance::Dominant, 3, -1),
            FruitStyle::Triangle => (GeneDominance::Recessive, 4, 1),
        };
        Gene {
            category: GeneCategory::FruitStyle(style),
            dominance,
            intelligence_effect,
            pest_resistance_effect,
        }
    }

    fn new_with_fruit_color(color: FruitColor) -> (g: Gene)
        ensures
            g == gene_for(GeneCategory::FruitColor(color)),
    {
        let (dominance, intelligence_effect, pest_resistance_effect): (GeneDominance, i32, i32) =
            match color {
            FruitColor::Red => (GeneDominance::Dominant, -1, 3),
            FruitColor::Purple => (GeneDominance::Dominant, 2, 1),
            FruitColor::Yellow => (GeneDominance::Recessive, 4, -3),
        };
        Gene {
            category: GeneCategory::FruitColor(color),
            dominance,
            intelligence_effect,
            pest_resistance_effect,
        }
    }

    /// The trait category (with its variant) this gene encodes.
    pub fn category(&self) -> (c: GeneCategory)
        ensures
            c == self.spec_category(),
    {
        self.category
    }

    /// This gene's dominance.
    pub fn dominance(&self) -> (d: GeneDominance)
        ensures
            d == self.spec_dominance(),
    {
        self.dominance
    }

    /// This gene's contribution to intelligence when expressed.
    pub fn intelligence_effect(&self) -> (e: i32)
        ensures
            e as int == self.spec_intelligence_effect(),
    {
        self.intelligence_effect
    }

    /// This gene's contribution to pest resistance when expressed.
    pub fn pest_resistance_effect(&self) -> (e: i32)
        ensures
            e as int == self.spec_pest_resistance_effect(),
    {
        self.pest_resistance_effect
    }
}

/// The category a gene's variant belongs to.
pub fn kind_of_category(c: GeneCategory) -> (k: TraitKind)
    ensures
        k == kind_of(c),
{
    match c {
        GeneCategory::StemStyle(_) => TraitKind::StemStyle,
        GeneCategory::StemColor(_) => TraitKind::StemColor,
        GeneCategory::FruitStyle(_) => TraitKind::FruitStyle,
        GeneCategory::FruitColor(_) => TraitKind::FruitColor,
    }
}

/// Whether a gene has the given dominance and belongs to the given category.
pub open spec fn gene_matches(g: Gene, dom: GeneDominance, k: TraitKind) -> bool {
    g.spec_dominance() == dom && kind_of(g.spec_category()) == k
}

/// The first gene of the list, in list order, with the given dominance and
/// category, if any.
pub open spec fn first_match(genes: Seq<Gene>, dom: GeneDominance, k: TraitKind) -> Option<Gene>
    decreases genes.len(),
{
    if genes.len() <= 0 {
        None
    } else if gene_matches(genes[0], dom, k) {
        Some(genes[0])
    } else {
        first_match(genes.drop_first(), dom, k)
    }
}

/// The gene a plant expresses for a category: the first dominant gene of
/// the category in list order; failing that, the first recessive one;
/// failing that, the category's fixed default gene.
pub open spec fn expressed_gene(genes: Seq<Gene>, k: TraitKind) -> Gene {
    match first_match(genes, GeneDominance::Dominant, k) {
        Some(g) => g,
        None => match first_match(genes, GeneDominance::Recessive, k) {
            Some(g) => g,
            None => default_gene(k),
        },
    }
}

/// A plant's intelligence: the sum of the four expressed genes' effects.
pub open spec fn spec_intelligence(genes: Seq<Gene>) -> int {
    expressed_gene(genes, TraitKind::StemStyle).spec_intelligence_effect()
        + expressed_gene(genes, TraitKind::StemColor).spec_intelligence_effect()
        + expressed_gene(genes, TraitKind::FruitStyle).spec_intelligence_effect()
        + expressed_gene(genes, TraitKind::FruitColor).spec_intelligence_effect()
}

/// A plant's pest resistance: the sum of the four expressed genes' effects.
pub open spec fn spec_pest_resistance(genes: Seq<Gene>) -> int {
    expressed_gene(genes, TraitKind::StemStyle).spec_pest_resistance_effect()
        + expressed_gene(genes, TraitKind::StemColor).spec_pest_resistance_effect()
        + expressed_gene(genes, TraitKind::FruitStyle).spec_pest_resistance_effect()
        + expressed_gene(genes, TraitKind::FruitColor).spec_pest_resistance_effect()
}

/// The stem style carried by a category, or the default for other categories.
pub open spec fn stem_style_of(c: GeneCategory) -> StemStyle {
    match c {
        GeneCategory::StemStyle(x) => x,
        _ => StemStyle::Curvy,
    }
}

/// The stem color carried by a category, or the default for other categories.
pub open spec fn stem_color_of(c: GeneCategory) -> StemColor {
    match c {
        GeneCategory::StemColor(x) => x,
        _ => StemColor::Green,
    }
}

/// The fruit style carried by a category, or the default for other categories.
pub open spec fn fruit_style_of(c: GeneCategory) -> FruitStyle {
    match c {
        GeneCategory::FruitStyle(x) => x,
        _ => FruitStyle::Circle,
    }
}

/// The fruit color carried by a category, or the default for other categories.
pub open spec fn fruit_color_of(c: GeneCategory) -> FruitColor {
    match c {
        GeneCategory::FruitColor(x) => x,
        _ => FruitColor::Red,
    }
}

/// A living plant: a name and an unordered gene list.
pub struct Plant {
    pub name: PlantName,
    pub genes: Vec<Gene>,
}

/// A plant's derived trait and stat profile; recomputed from the gene
/// list on demand, never stored.
#[derive(PartialEq, Eq, Clone, Copy, Structural, Debug)]
pub struct Phenotype {
    pub stem_style: StemStyle,
    pub stem_color: StemColor,
    pub fruit_style: FruitStyle,
    pub fruit_color: FruitColor,
    pub intelligence: i32,
    pub pest_resistance: i32,
}

/// Whether a phenotype is the one resolved from a gene list.
pub open spec fn phenotype_matches(p: Phenotype, genes: Seq<Gene>) -> bool {
    &&& p.stem_style == stem_style_of(expressed_gene(genes, TraitKind::StemStyle).spec_category())
    &&& p.stem_color == stem_color_of(expressed_gene(genes, TraitKind::StemColor).spec_category())
    &&& p.fruit_style == fruit_style_of(
        expressed_gene(genes, TraitKind::FruitStyle).spec_category(),
    )
    &&& p.fruit_color == fruit_color_of(
        expressed_gene(genes, TraitKind::FruitColor).spec_category(),
    )
    &&& p.intelligence as int == spec_intelligence(genes)
    &&& p.pest_resistance as int == spec_pest_resistance(genes)
}

/// Every table effect lies between -3 and 5.
proof fn lemma_effect_bounds(c: GeneCategory)
    ensures
        -3 <= category_intelligence_effect(c) <= 5,
        -3 <= category_pest_resistance_effect(c) <= 5,
{
}

/// Copies a gene list.
fn clone_genes(genes: &Vec<Gene>) -> (r: Vec<Gene>)
    ensures
        r@ == genes@,
{
    let mut out: Vec<Gene> = Vec::new();
    let mut idx: usize = 0;
    while idx < genes.len()
        invariant
            idx <= genes.len(),
            out@ =~= genes@.take(idx as int),
        decreases genes.len() - idx,
    {
        out.push(genes[idx]);
        proof {
            assert(out@ =~= genes@.take(idx as int + 1));
        }
        idx += 1;
    }
    proof {
        assert(genes@.take(genes@.len() as int) =~= genes@);
    }
    out
}

/// Whether a gene has the given dominance and belongs to the given category.
fn gene_matches_exec(g: &Gene, dom: GeneDominance, kind: TraitKind) -> (b: bool)
    ensures
        b == gene_matches(*g, dom, kind),
{
    let gk = kind_of_category(g.category);
    g.dominance == dom && gk == kind
}

/// Finds the first gene, in list order, with the given dominance and category.
fn find_first_match(genes: &Vec<Gene>, dom: GeneDominance, kind: TraitKind) -> (r: Option<Gene>)
    ensures
        r == first_match(genes@, dom, kind),
{
    proof {
        assert(genes@.skip(0) =~= genes@);
    }
    let mut idx: usize = 0;
    while idx < genes.len()
        invariant
            idx <= genes.len(),
            first_match(genes@, dom, kind) == first_match(genes@.skip(idx as int), dom, kind),
        decreases genes.len() - idx,
    {
        let g = genes[idx];
        proof {
            assert(genes@.skip(idx as int)[0] == genes@[idx as int]);
        }
        if gene_matches_exec(&g, dom, kind) {
            return Some(g);
        }
        proof {
            assert(genes@.skip(idx as int).drop_first() =~= genes@.skip(idx as int + 1));
        }
        idx += 1;
    }
    proof {
        assert(genes@.skip(genes@.len() as int) =~= Seq::<Gene>::empty());
    }
    None
}

/// Builds the default gene of a category.
fn new_default_gene(kind: TraitKind) -> (g: Gene)
    ensures
        g == default_gene(kind),
{
    match kind {
        TraitKind::StemStyle => Gene::new_with_category(GeneCategory::StemStyle(StemStyle::Curvy)),
        TraitKind::StemColor => Gene::new_with_category(GeneCategory::StemColor(StemColor::Green)),
        TraitKind::FruitStyle => Gene::new_with_category(
            GeneCategory::FruitStyle(FruitStyle::Circle),
        ),
        TraitKind::FruitColor => Gene::new_with_category(GeneCategory::FruitColor(FruitColor::Red)),
    }
}

/// Resolves the gene a plant expresses for a category.
fn get_expressed_gene(genes: &Vec<Gene>, kind: TraitKind) -> (g: Gene)
    ensures
        g == expressed_gene(genes@, kind),
{
    match find_first_match(genes, GeneDominance::Dominant, kind) {
        Some(g) => g,
        None => match find_first_match(genes, GeneDominance::Recessive, kind) {
            Some(g) => g,
            None => new_default_gene(kind),
        },
    }
}

impl Plant {
    /// Resolves this plant's phenotype from its gene list: per category,
    /// the first dominant gene in list order wins, then the first
    /// recessive one, then the fixed default; the chosen genes' effects
    /// are summed, unclamped.
    pub fn get_phenotype(&self) -> (p: Phenotype)
        ensures
            phenotype_matches(p, self.genes@),
            -12 <= p.intelligence as int <= 20,
            -12 <= p.pest_resistance as int <= 20,
    {
        let stem_style_gene = get_expressed_gene(&self.genes, TraitKind::StemStyle);
        let stem_color_gene = get_expressed_gene(&self.genes, TraitKind::StemColor);
        let fruit_style_gene = get_expressed_gene(&self.genes, TraitKind::FruitStyle);
        let fruit_color_gene = get_expressed_gene(&self.genes, TraitKind::FruitColor);
        proof {
            use_type_invariant(&stem_style_gene);
            use_type_invariant(&stem_color_gene);
            use_type_invariant(&fruit_style_gene);
            use_type_invariant(&fruit_color_gene);
            lemma_effect_bounds(stem_style_gene.category);
            lemma_effect_bounds(stem_color_gene.category);
            lemma_effect_bounds(fruit_style_gene.category);
            lemma_effect_bounds(fruit_color_gene.category);
        }

        let stem_style: StemStyle = match stem_style_gene.category {
            GeneCategory::StemStyle(x) => x,
            _ => StemStyle::Curvy,
        };
        let stem_color: StemColor = match stem_color_gene.category {
            GeneCategory::StemColor(x) => x,
            _ => StemColor::Green,
        };
        let fruit_style: FruitStyle = match fruit_style_gene.category {
            GeneCategory::FruitStyle(x) => x,
            _ => FruitStyle::Circle,
        };
        let fruit_color: FruitColor = match fruit_color_gene.category {
            GeneCategory::FruitColor(x) => x,
            _ => FruitColor::Red,
        };

        let intelligence: i32 = stem_style_gene.intelligence_effect
            + stem_color_gene.intelligence_effect + fruit_style_gene.intelligence_effect
            + fruit_color_gene.intelligence_effect;
        let pest_resistance: i32 = stem_style_gene.pest_resistance_effect
            + stem_color_gene.pest_resistance_effect + fruit_style_gene.pest_resistance_effect
            + fruit_color_gene.pest_resistance_effect;

        Phenotype { stem_style, stem_color, fruit_style, fruit_color, intelligence, pest_resistance }
    }
}

impl Clone for Plant {
    /// Clones the plant, preserving its name and genes.
    fn clone(&self) -> (r: Self)
        ensures
            r.name@ == self.name@,
            r.genes@ == self.genes@,
    {
        Plant { name: self.name.clone(), genes: clone_genes(&self.genes) }
    }
}

/// A seed produced by splicing two parent plants: it carries both parents'
/// names verbatim and one spliced gene pair per trait category.
pub struct Seed {
    pub parent_name_1: PlantName,
    pub parent_name_2: PlantName,
    pub genes: Vec<Gene>,
}

/// The genes of a list that belong to a category, in list order.
pub open spec fn matching_genes(genes: Seq<Gene>, k: TraitKind) -> Seq<Gene>
    decreases genes.len(),
{
    if genes.len() <= 0 {
        Seq::empty()
    } else {
        let rest = matching_genes(genes.drop_first(), k);
        if kind_of(genes[0].spec_category()) == k {
            seq![genes[0]] + rest
        } else {
            rest
        }
    }
}

/// What holds of a gene spliced from one parent for one category: it is one
/// of the parent's genes of the category, or the category's default gene
/// when the parent has none.
pub open spec fn spliced_gene_ok(g: Gene, parent: Seq<Gene>, k: TraitKind) -> bool {
    if matching_genes(parent, k).len() > 0 {
        matching_genes(parent, k).contains(g)
    } else {
        g == default_gene(k)
    }
}

/// The gene spliced from one parent for one category under a fixed draw.
pub open spec fn spliced_gene_fixed(parent: Seq<Gene>, k: TraitKind, v: u64) -> Gene {
    let m = matching_genes(parent, k);
    if m.len() > 0 {
        m[v as int % m.len() as int]
    } else {
        default_gene(k)
    }
}

/// What holds of a spliced gene list: eight genes, one pair per category,
/// each drawn from the respective parent (or the default).
pub open spec fn spliced_genes_ok(out: Seq<Gene>, g1: Seq<Gene>, g2: Seq<Gene>) -> bool {
    &&& out.len() == 8
    &&& spliced_gene_ok(out[0], g1, TraitKind::StemStyle)
    &&& spliced_gene_ok(out[1], g2, TraitKind::StemStyle)
    &&& spliced_gene_ok(out[2], g1, TraitKind::StemColor)
    &&& spliced_gene_ok(out[3], g2, TraitKind::StemColor)
    &&& spliced_gene_ok(out[4], g1, TraitKind::FruitStyle)
    &&& spliced_gene_ok(out[5], g2, TraitKind::FruitStyle)
    &&& spliced_gene_ok(out[6], g1, TraitKind::FruitColor)
    &&& spliced_gene_ok(out[7], g2, TraitKind::FruitColor)
}

/// The spliced gene list under a fixed draw.
pub open spec fn spliced_genes_fixed(g1: Seq<Gene>, g2: Seq<Gene>, v: u64) -> Seq<Gene> {
    seq![
        spliced_gene_fixed(g1, TraitKind::StemStyle, v),
        spliced_gene_fixed(g2, TraitKind::StemStyle, v),
        spliced_gene_fixed(g1, TraitKind::StemColor, v),
        spliced_gene_fixed(g2, TraitKind::StemColor, v),
        spliced_gene_fixed(g1, TraitKind::FruitStyle, v),
        spliced_gene_fixed(g2, TraitKind::FruitStyle, v),
        spliced_gene_fixed(g1, TraitKind::FruitColor, v),
        spliced_gene_fixed(g2, TraitKind::FruitColor, v),
    ]
}

/// Collects the genes of a list that belong to a category, in list order.
fn matching_genes_vec(genes: &Vec<Gene>, kind: TraitKind) -> (r: Vec<Gene>)
    ensures
        r@ == matching_genes(genes@, kind),
{
    proof {
        assert(genes@.skip(0) =~= genes@);
    }
    let mut collected: Vec<Gene> = Vec::new();
    let mut idx: usize = 0;
    while idx < genes.len()
        invariant
            idx <= genes.len(),
            matching_genes(genes@, kind) == collected@ + matching_genes(
                genes@.skip(idx as int),
                kind,
            ),
        decreases genes.len() - idx,
    {
        let g = genes[idx];
        proof {
            assert(genes@.skip(idx as int)[0] == genes@[idx as int]);
            assert(genes@.skip(idx as int).drop_first() =~= genes@.skip(idx as int + 1));
        }
        let gk = kind_of_category(g.category);
        if gk == kind {
            let ghost prev = collected@;
            collected.push(g);
            proof {
                assert(prev + (seq![g] + matching_genes(genes@.skip(idx as int + 1), kind))
                    =~= collected@ + matching_genes(genes@.skip(idx as int + 1), kind));
            }
        }
        idx += 1;
    }
    proof {
        assert(genes@.skip(genes@.len() as int) =~= Seq::<Gene>::empty());
        assert(collected@ + Seq::<Gene>::empty() =~= collected@);
    }
    collected
}

/// Splices one gene pair for a category: one gene picked uniformly from
/// each parent's genes of the category, or the category's default gene for
/// a parent that has none.
fn get_spliced_genes(
    genes_1: &Vec<Gene>,
    genes_2: &Vec<Gene>,
    kind: TraitKind,
    rng: &mut RandomSource,
) -> (pair: (Gene, Gene))
    ensures
        spliced_gene_ok(pair.0, genes_1@, kind),
        spliced_gene_ok(pair.1, genes_2@, kind),
        *old(rng) matches RandomSource::Fixed(v) ==> pair.0 == spliced_gene_fixed(
            genes_1@,
            kind,
            v,
        ) && pair.1 == spliced_gene_fixed(genes_2@, kind, v),
        *final(rng) == *old(rng),
{
    let found_1 = matching_genes_vec(genes_1, kind);
    let gene_1: Gene = if found_1.len() > 0 {
        let pick = rng.pick_index(found_1.len());
        proof {
            assert(matching_genes(genes_1@, kind).contains(
                matching_genes(genes_1@, kind)[pick as int],
            ));
        }
        found_1[pick]
    } else {
        new_default_gene(kind)
    };

    let found_2 = matching_genes_vec(genes_2, kind);
    let gene_2: Gene = if found_2.len() > 0 {
        let pick = rng.pick_index(found_2.len());
        proof {
            assert(matching_genes(genes_2@, kind).contains(
                matching_genes(genes_2@, kind)[pick as int],
            ));
        }
        found_2[pick]
    } else {
        new_default_gene(kind)
    };

    (gene_1, gene_2)
}

/// Splices the gene lists of two parents: per category, one gene from each
/// parent (or the default), appended parent-1-then-parent-2.
fn splice_genes(genes_1: &Vec<Gene>, genes_2: &Vec<Gene>, rng: &mut RandomSource) -> (r: Vec<Gene>)
    ensures
        spliced_genes_ok(r@, genes_1@, genes_2@),
        *old(rng) matches RandomSource::Fixed(v) ==> r@ == spliced_genes_fixed(
            genes_1@,
            genes_2@,
            v,
        ),
        *final(rng) == *old(rng),
{
    let mut genes: Vec<Gene> = Vec::new();

    let stem_style_pair = get_spliced_genes(genes_1, genes_2, TraitKind::StemStyle, rng);
    genes.push(stem_style_pair.0);
    genes.push(stem_style_pair.1);

    let stem_color_pair = get_spliced_genes(genes_1, genes_2, TraitKind::StemColor, rng);
    genes.push(stem_color_pair.0);
    genes.push(stem_color_pair.1);

    let fruit_style_pair = get_spliced_genes(genes_1, genes_2, TraitKind::FruitStyle, rng);
    genes.push(fruit_style_pair.0);
    genes.push(fruit_style_pair.1);

    let fruit_color_pair = get_spliced_genes(genes_1, genes_2, TraitKind::FruitColor, rng);
    genes.push(fruit_color_pair.0);
    genes.push(fruit_color_pair.1);

    proof {
        if *old(rng) is Fixed {
            assert(genes@ =~= spliced_genes_fixed(genes_1@, genes_2@, (*old(rng))->Fixed_0));
        }
    }
    genes
}

/// Splices together the genes of two plants into a new seed, capturing both
/// parents' names verbatim.
pub fn splice_plants(plant_1: &Plant, plant_2: &Plant, rng: &mut RandomSource) -> (seed: Seed)
    ensures
        seed.parent_name_1@ == plant_1.name@,
        seed.parent_name_2@ == plant_2.name@,
        spliced_genes_ok(seed.genes@, plant_1.genes@, plant_2.genes@),
        *old(rng) matches RandomSource::Fixed(v) ==> seed.genes@ == spliced_genes_fixed(
            plant_1.genes@,
            plant_2.genes@,
            v,
        ),
        *final(rng) == *old(rng),
{
    Seed {
        parent_name_1: plant_1.name.clone(),
        parent_name_2: plant_2.name.clone(),
        genes: splice_genes(&plant_1.genes, &plant_2.genes, rng),
    }
}

impl Seed {
    /// Turns this seed into a plant: the gene list is inherited unchanged
    /// and the name is recombined from the two parents' names.
    pub fn grow(&self, rng: &mut RandomSource) -> (plant: Plant)
        ensures
            plant.genes@ == self.genes@,
            combined_name_ok(plant.name@, self.parent_name_1@, self.parent_name_2@),
            *final(rng) == *old(rng),
    {
        Plant {
            name: combine_names(&self.parent_name_1, &self.parent_name_2, rng),
            genes: clone_genes(&self.genes),
        }
    }
}

/// What `first_match` returns: a gene of the list that matches, or nothing
/// only when no gene of the list matches.
pub proof fn lemma_first_match(genes: Seq<Gene>, dom: GeneDominance, k: TraitKind)
    ensures
        match first_match(genes, dom, k) {
            Some(g) => genes.contains(g) && gene_matches(g, dom, k),
            None => forall|i: int| 0 <= i < genes.len() ==> !gene_matches(#[trigger] genes[i], dom, k),
        },
    decreases genes.len(),
{
    if genes.len() > 0 {
        if gene_matches(genes[0], dom, k) {
            assert(genes.contains(genes[0]));
        } else {
            lemma_first_match(genes.drop_first(), dom, k);
            match first_match(genes.drop_first(), dom, k) {
                Some(g) => {
                    assert(genes.drop_first().contains(g));
                    let i = choose|i: int|
                        0 <= i < genes.drop_first().len() && genes.drop_first()[i] == g;
                    assert(genes[i + 1] == g);
                    assert(genes.contains(g));
                },
                None => {
                    assert forall|i: int| 0 <= i < genes.len() implies !gene_matches(
                        #[trigger] genes[i],
                        dom,
                        k,
                    ) by {
                        if i > 0 {
                            assert(genes.drop_first()[i - 1] == genes[i]);
                        }
                    }
                },
            }
        }
    }
}

/// Helper: the first match of a list whose first matching position is known.
proof fn lemma_first_match_at(genes: Seq<Gene>, dom: GeneDominance, k: TraitKind, i: int)
    requires
        0 <= i < genes.len(),
        gene_matches(genes[i], dom, k),
        forall|j: int| 0 <= j < i ==> !gene_matches(#[trigger] genes[j], dom, k),
    ensures
        first_match(genes, dom, k) == Some(genes[i]),
    decreases i,
{
    if i == 0 {
    } else {
        assert(!gene_matches(genes[0], dom, k));
        assert(genes.drop_first()[i - 1] == genes[i]);
        assert forall|j: int| 0 <= j < i - 1 implies !gene_matches(
            #[trigger] genes.drop_first()[j],
            dom,
            k,
        ) by {
            assert(genes.drop_first()[j] == genes[j + 1]);
        }
        lemma_first_match_at(genes.drop_first(), dom, k, i - 1);
    }
}

/// Law: phenotype resolution is deterministic — any two phenotypes resolved
/// from the same gene list agree in every trait and stat.
pub proof fn lemma_phenotype_deterministic(a: Phenotype, b: Phenotype, genes: Seq<Gene>)
    requires
        phenotype_matches(a, genes),
        phenotype_matches(b, genes),
    ensures
        a == b,
{
}

/// Law: dominance precedence — a gene list holding any dominant gene of a
/// category expresses a dominant gene of that category, never a recessive
/// one and never the default, regardless of list order.
pub proof fn lemma_dominance_precedence(genes: Seq<Gene>, k: TraitKind, i: int)
    requires
        0 <= i < genes.len(),
        gene_matches(genes[i], GeneDominance::Dominant, k),
    ensures
        expressed_gene(genes, k).spec_dominance() == GeneDominance::Dominant,
        kind_of(expressed_gene(genes, k).spec_category()) == k,
        genes.contains(expressed_gene(genes, k)),
{
    lemma_first_match(genes, GeneDominance::Dominant, k);
}

/// Law: first-in-order tie-break — with several dominant genes of one
/// category, the first one in list order is the expressed gene.
pub proof fn lemma_first_in_order_tie_break(genes: Seq<Gene>, k: TraitKind, i: int)
    requires
        0 <= i < genes.len(),
        gene_matches(genes[i], GeneDominance::Dominant, k),
        forall|j: int| 0 <= j < i ==> !gene_matches(#[trigger] genes[j], GeneDominance::Dominant, k),
    ensures
        expressed_gene(genes, k) == genes[i],
{
    lemma_first_match_at(genes, GeneDominance::Dominant, k, i);
}

/// Law: default fallback — a gene list with no gene of a category
/// expresses that category's fixed default gene, with its baked-in effects.
pub proof fn lemma_default_fallback(genes: Seq<Gene>, k: TraitKind)
    requires
        forall|i: int| 0 <= i < genes.len() ==> kind_of((#[trigger] genes[i]).spec_category()) != k,
    ensures
        expressed_gene(genes, k) == default_gene(k),
        expressed_gene(genes, k).spec_intelligence_effect() == category_intelligence_effect(
            default_category(k),
        ),
        expressed_gene(genes, k).spec_pest_resistance_effect() == category_pest_resistance_effect(
            default_category(k),
        ),
{
    lemma_first_match(genes, GeneDominance::Dominant, k);
    lemma_first_match(genes, GeneDominance::Recessive, k);
    if first_match(genes, GeneDominance::Dominant, k) is Some {
        let g = first_match(genes, GeneDominance::Dominant, k)->Some_0;
        let i = choose|i: int| 0 <= i < genes.len() && genes[i] == g;
        assert(false);
    }
    if first_match(genes, GeneDominance::Recessive, k) is Some {
        let g = first_match(genes, GeneDominance::Recessive, k)->Some_0;
        let i = choose|i: int| 0 <= i < genes.len() && genes[i] == g;
        assert(false);
    }
}

/// Helper: every gene of `matching_genes` belongs to the category.
proof fn lemma_matching_genes_kinds(genes: Seq<Gene>, k: TraitKind)
    ensures
        forall|i: int|
            0 <= i < matching_genes(genes, k).len() ==> kind_of(
                (#[trigger] matching_genes(genes, k)[i]).spec_category(),
            ) == k,
    decreases genes.len(),
{
    if genes.len() > 0 {
        lemma_matching_genes_kinds(genes.drop_first(), k);
    }
}

/// Law: a spliced gene list always holds exactly eight genes — one pair per
/// trait category, in category order — however many genes each parent has.
pub proof fn lemma_splice_gene_counts(out: Seq<Gene>, g1: Seq<Gene>, g2: Seq<Gene>)
    requires
        spliced_genes_ok(out, g1, g2),
    ensures
        out.len() == 8,
        kind_of(out[0].spec_category()) == TraitKind::StemStyle,
        kind_of(out[1].spec_category()) == TraitKind::StemStyle,
        kind_of(out[2].spec_category()) == TraitKind::StemColor,
        kind_of(out[3].spec_category()) == TraitKind::StemColor,
        kind_of(out[4].spec_category()) == TraitKind::FruitStyle,
        kind_of(out[5].spec_category()) == TraitKind::FruitStyle,
        kind_of(out[6].spec_category()) == TraitKind::FruitColor,
        kind_of(out[7].spec_category()) == TraitKind::FruitColor,
{
    let kinds = seq![
        TraitKind::StemStyle,
        TraitKind::StemColor,
        TraitKind::FruitStyle,
        TraitKind::FruitColor,
    ];
    assert forall|n: int| 0 <= n < 4 implies kind_of(out[2 * n].spec_category()) == kinds[n]
        && kind_of(out[2 * n + 1].spec_category()) == kinds[n] by {
        let k = kinds[n];
        lemma_matching_genes_kinds(g1, k);
        lemma_matching_genes_kinds(g2, k);
        lemma_gene_for(default_category(k));
        assert(spliced_gene_ok(out[2 * n], g1, k));
        assert(spliced_gene_ok(out[2 * n + 1], g2, k));
    }
    assert(kind_of(out[0].spec_category()) == TraitKind::StemStyle);
    assert(kind_of(out[1].spec_category()) == TraitKind::StemStyle);
    assert(kind_of(out[2].spec_category()) == TraitKind::StemColor);
    assert(kind_of(out[3].spec_category()) == TraitKind::StemColor);
    assert(kind_of(out[4].spec_category()) == TraitKind::FruitStyle);
    assert(kind_of(out[5].spec_category()) == TraitKind::FruitStyle);
    assert(kind_of(out[6].spec_category()) == TraitKind::FruitColor);
    assert(kind_of(out[7].spec_category()) == TraitKind::FruitColor);
}

} // verus!
