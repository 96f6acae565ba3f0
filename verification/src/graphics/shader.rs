use crate::graphics::wgsl::{
    checked_extract_global_variables, extract_global_variables_from_shader_source,
    global_variables, AddressSpace, Variable,
    VariableKind, VariableView,
};
use crate::assets::{Asset, AssetError, AssetLoader};
use crate::graphics::{GraphicsError, GraphicsErrorView};
use crate::text::{str_eq, str_starts_with};
use vstd::prelude::*;
use vstd::string::StringSliceAdditionalSpecFns;

verus! {

/// The WGSL source of a shader.
#[derive(Debug)]
pub struct ShaderAsset {
    pub source: String,
}

impl Asset for ShaderAsset {
    type Loader = ShaderLoader;
}

/// The text that `String::from_utf8_lossy` makes of `bytes`: each maximal invalid sequence
/// replaced by U+FFFD.
pub uninterp spec fn lossy_text(bytes: Seq<u8>) -> Seq<char>;

/// Calls `String::from_utf8_lossy`: the text is `lossy_text` of the bytes, and bytes that are
/// valid UTF-8 give the text they encode.
#[verifier::external_body]
fn string_from_utf8_lossy(bytes: &[u8]) -> (text: String)
    ensures
        text@ == lossy_text(bytes@),
        vstd::utf8::valid_utf8(bytes@) ==> text@ == vstd::utf8::decode_utf8(bytes@),
{
    String::from_utf8_lossy(bytes).into_owned()
}

/// Loads shader sources.
pub struct ShaderLoader;

impl AssetLoader<ShaderAsset> for ShaderLoader {
    /// The file's text, invalid sequences replaced; this never fails.
    fn load(file_content: &[u8]) -> (r: Result<ShaderAsset, AssetError>)
        ensures
            r matches Ok(shader) && shader.source@ == lossy_text(file_content@) && (vstd::utf8::valid_utf8(
                file_content@,
            ) ==> shader.source@ == vstd::utf8::decode_utf8(file_content@)),
    {
        Ok(ShaderAsset { source: string_from_utf8_lossy(file_content) })
    }
}

/// Where a variable is bound in a shader.
pub struct ParameterMetadata {
    group: u32,
    binding: u32,
}

impl ParameterMetadata {
    pub closed spec fn spec_group(&self) -> u32 {
        self.group
    }

    pub closed spec fn spec_binding(&self) -> u32 {
        self.binding
    }

    pub fn group(&self) -> (g: u32)
        ensures
            g == self.spec_group(),
    {
        self.group
    }

    pub fn binding(&self) -> (b: u32)
        ensures
            b == self.spec_binding(),
    {
        self.binding
    }
}

#[derive(Debug, Clone, Copy, PartialEq, Eq, Structural)]
pub enum BindingType {
    Uniform,
    Sampler,
    Texture,
    Storage,
}

#[derive(Debug, Clone, Copy, PartialEq, Eq, Structural)]
pub enum ShaderStage {
    Vertex,
    Fragment,
    VertexFragment,
    Compute,
}

/// An entry of a bind group: a named resource, its type and the stages that see it.
#[derive(Clone)]
pub struct BindGroupEntry {
    name: String,
    binding_type: BindingType,
    visibility: ShaderStage,
}

impl BindGroupEntry {
    pub closed spec fn spec_name(&self) -> Seq<char> {
        self.name@
    }

    pub closed spec fn spec_binding_type(&self) -> BindingType {
        self.binding_type
    }

    pub fn name(&self) -> (n: &str)
        ensures
            n@ == self.spec_name(),
    {
        self.name.as_str()
    }

    pub fn binding_type(&self) -> (t: BindingType)
        ensures
            t == self.spec_binding_type(),
    {
        self.binding_type
    }
}

/// The entries of a bind group.
#[derive(Clone)]
pub struct BindGroup {
    entries: Vec<BindGroupEntry>,
}

impl BindGroup {
    pub closed spec fn spec_entries(&self) -> Seq<BindGroupEntry> {
        self.entries@
    }

    pub fn entries(&self) -> (e: &[BindGroupEntry])
        ensures
            e@ == self.spec_entries(),
    {
        self.entries.as_slice()
    }
}

/// How a variable is bound: the resource type of its bind group layout entry.
#[derive(Debug, Clone, Copy, PartialEq, Eq, Structural)]
pub enum LayoutBindingType {
    /// A read-only storage buffer.
    ReadOnlyStorageBuffer,
    /// A filterable float 2D texture, not multisampled.
    FilterableTexture2d,
    /// A non-filtering sampler.
    NonFilteringSampler,
    /// A uniform buffer.
    UniformBuffer { has_dynamic_offset: bool },
}

/// An entry of a bind group layout.
#[derive(Debug, Clone, Copy, PartialEq, Eq, Structural)]
pub struct BindGroupLayoutEntry {
    pub binding: u32,
    pub visibility: ShaderStage,
    pub ty: LayoutBindingType,
}

/// The binding type of a variable: storage variables are read-only storage buffers, textures
/// and samplers are bound as such, anything else is a uniform buffer, with a dynamic offset
/// when its identifier starts with `dyn_`.
pub open spec fn binding_type_of(v: VariableView) -> LayoutBindingType {
    if v.address_space == Some(AddressSpace::Storage) {
        LayoutBindingType::ReadOnlyStorageBuffer
    } else if v.kind == VariableKind::Texture {
        LayoutBindingType::FilterableTexture2d
    } else if v.kind == VariableKind::Sampler {
        LayoutBindingType::NonFilteringSampler
    } else {
        LayoutBindingType::UniformBuffer { has_dynamic_offset: "dyn_"@.is_prefix_of(v.identifier) }
    }
}

/// The layout entry of a variable, seen by the vertex and fragment stages.
pub open spec fn layout_entry_of(v: VariableView) -> BindGroupLayoutEntry {
    BindGroupLayoutEntry {
        binding: v.binding,
        visibility: ShaderStage::VertexFragment,
        ty: binding_type_of(v),
    }
}

impl Variable {
    /// The binding type of the variable.
    pub fn binding_type(&self) -> (t: LayoutBindingType)
        ensures
            t == binding_type_of(self@),
    {
        if let Some(address_space) = self.address_space {
            if address_space == AddressSpace::Storage {
                return LayoutBindingType::ReadOnlyStorageBuffer;
            }
        }
        if self.kind == VariableKind::Texture {
            return LayoutBindingType::FilterableTexture2d;
        } else if self.kind == VariableKind::Sampler {
            return LayoutBindingType::NonFilteringSampler;
        }
        let has_dynamic_offset = str_starts_with(self.identifier.as_str(), "dyn_");
        LayoutBindingType::UniformBuffer { has_dynamic_offset }
    }
}

/// Whether `a` comes no later than `b` when variables are ordered by group, then binding.
pub open spec fn key_le(a: VariableView, b: VariableView) -> bool {
    a.group < b.group || (a.group == b.group && a.binding <= b.binding)
}

/// How many of the leading indices of `order` name variables that `v` does not precede.
pub open spec fn insert_position(vars: Seq<VariableView>, order: Seq<usize>, v: VariableView) -> nat
    decreases order.len(),
{
    if order.len() == 0 {
        0
    } else if key_le(vars[order[0] as int], v) {
        1 + insert_position(vars, order.drop_first(), v)
    } else {
        0
    }
}

/// The indices of the first `k` variables, stably sorted by group, then binding: each index
/// goes after the indices of the variables it does not precede.
pub open spec fn sorted_order(vars: Seq<VariableView>, k: nat) -> Seq<usize>
    decreases k,
{
    if k == 0 {
        Seq::empty()
    } else {
        let order = sorted_order(vars, (k - 1) as nat);
        order.insert(insert_position(vars, order, vars[k - 1]) as int, (k - 1) as usize)
    }
}

/// The variables stably sorted by group, then binding.
pub open spec fn sorted_variables(vars: Seq<VariableView>) -> Seq<VariableView> {
    sorted_order(vars, vars.len()).map_values(|i: usize| vars[i as int])
}

/// The parameter of each identifier among the first `k` sorted variables: the group and the
/// binding of the last one that has it.
pub open spec fn parameters_after(sorted: Seq<VariableView>, k: nat) -> Map<Seq<char>, (u32, u32)>
    decreases k,
{
    if k == 0 || k > sorted.len() {
        Map::empty()
    } else {
        let v = sorted[k - 1];
        parameters_after(sorted, (k - 1) as nat).insert(v.identifier, (v.group, v.binding))
    }
}

/// The bind group layouts that the first `k` sorted variables fill: a variable whose group is
/// the number of groups so far opens a new group, and its entry goes at the end of its group;
/// `None` when a group would be skipped.
pub open spec fn layouts_after(sorted: Seq<VariableView>, k: nat) -> Option<Seq<Seq<BindGroupLayoutEntry>>>
    decreases k,
{
    if k == 0 || k > sorted.len() {
        Some(Seq::empty())
    } else {
        match layouts_after(sorted, (k - 1) as nat) {
            None => None,
            Some(groups) => {
                let v = sorted[k - 1];
                let g = v.group as int;
                let grown = if groups.len() <= g {
                    groups.push(Seq::empty())
                } else {
                    groups
                };
                if g < grown.len() {
                    Some(grown.update(g, grown[g].push(layout_entry_of(v))))
                } else {
                    None
                }
            },
        }
    }
}

/// The bind group layouts of a shader's variables, when no group is skipped.
pub open spec fn layouts_of(vars: Seq<VariableView>) -> Option<Seq<Seq<BindGroupLayoutEntry>>> {
    let sorted = sorted_variables(vars);
    layouts_after(sorted, sorted.len())
}

/// The parameters of a shader's variables.
pub open spec fn parameters_of(vars: Seq<VariableView>) -> Map<Seq<char>, (u32, u32)> {
    let sorted = sorted_variables(vars);
    parameters_after(sorted, sorted.len())
}

/// Whether a shader can be described: its global variables can be walked, and, when they
/// parse, their groups skip no number.
pub open spec fn shader_metadata_defined(source: Seq<u8>) -> bool {
    match global_variables(source) {
        None => false,
        Some(Err(_)) => true,
        Some(Ok(vars)) => layouts_of(vars) is Some,
    }
}

proof fn lemma_sorted_order_indices(vars: Seq<VariableView>, k: nat)
    ensures
        sorted_order(vars, k).len() == k,
        forall|i: int| 0 <= i < k ==> #[trigger] sorted_order(vars, k)[i] < k,
    decreases k,
{
    if k > 0 {
        lemma_sorted_order_indices(vars, (k - 1) as nat);
        lemma_insert_position_bound(vars, sorted_order(vars, (k - 1) as nat), vars[k - 1]);
    }
}

proof fn lemma_insert_position_bound(vars: Seq<VariableView>, order: Seq<usize>, v: VariableView)
    ensures
        insert_position(vars, order, v) <= order.len(),
    decreases order.len(),
{
    if order.len() > 0 {
        lemma_insert_position_bound(vars, order.drop_first(), v);
    }
}

/// Whether the indices in `order` list variables ordered by group, then binding, and, among
/// variables with the same group and binding, by index.
pub open spec fn stably_sorted(vars: Seq<VariableView>, order: Seq<usize>) -> bool {
    forall|i: int, j: int|
        #![trigger order[i], order[j]]
        0 <= i < j < order.len() ==> {
            let a = vars[order[i] as int];
            let b = vars[order[j] as int];
            &&& key_le(a, b)
            &&& (a.group == b.group && a.binding == b.binding ==> order[i] < order[j])
        }
}

proof fn lemma_insert_position_splits(vars: Seq<VariableView>, order: Seq<usize>, v: VariableView)
    requires
        stably_sorted(vars, order),
    ensures
        insert_position(vars, order, v) <= order.len(),
        forall|i: int| 0 <= i < insert_position(vars, order, v) ==> key_le(#[trigger] vars[order[i] as int], v),
        forall|i: int| insert_position(vars, order, v) <= i < order.len() ==> !key_le(#[trigger] vars[order[i] as int], v),
    decreases order.len(),
{
    if order.len() > 0 {
        let rest = order.drop_first();
        assert(stably_sorted(vars, rest)) by {
            assert forall|i: int, j: int| #![trigger rest[i], rest[j]] 0 <= i < j < rest.len() implies {
                let a = vars[rest[i] as int];
                let b = vars[rest[j] as int];
                &&& key_le(a, b)
                &&& (a.group == b.group && a.binding == b.binding ==> rest[i] < rest[j])
            } by {
                assert(rest[i] == order[i + 1] && rest[j] == order[j + 1]);
            }
        }
        lemma_insert_position_splits(vars, rest, v);
        if key_le(vars[order[0] as int], v) {
            assert forall|i: int| 0 <= i < insert_position(vars, order, v) implies key_le(#[trigger] vars[order[i] as int], v) by {
                if i > 0 {
                    assert(order[i] == rest[i - 1]);
                }
            }
            assert forall|i: int| insert_position(vars, order, v) <= i < order.len() implies !key_le(#[trigger] vars[order[i] as int], v) by {
                assert(order[i] == rest[i - 1]);
            }
        } else {
            assert forall|i: int| 0 <= i < order.len() implies !key_le(#[trigger] vars[order[i] as int], v) by {
                if i > 0 {
                    assert(key_le(vars[order[0] as int], vars[order[i] as int]));
                }
            }
        }
    }
}

/// Law: the sorted order of the first `k` variables lists each of their indices once, by
/// group, then binding, and keeps declaration order among variables with the same group
/// and binding: a stable sort.
pub proof fn lemma_sorted_order_is_stable_sort(vars: Seq<VariableView>, k: nat)
    requires
        k <= vars.len(),
        k <= usize::MAX,
    ensures
        sorted_order(vars, k).len() == k,
        forall|i: int| 0 <= i < k ==> #[trigger] sorted_order(vars, k)[i] < k,
        forall|i: int, j: int|
            #![trigger sorted_order(vars, k)[i], sorted_order(vars, k)[j]]
            0 <= i < j < k ==> sorted_order(vars, k)[i] != sorted_order(vars, k)[j],
        stably_sorted(vars, sorted_order(vars, k)),
    decreases k,
{
    lemma_sorted_order_indices(vars, k);
    if k > 0 {
        let previous = sorted_order(vars, (k - 1) as nat);
        let v = vars[k - 1];
        let p = insert_position(vars, previous, v) as int;
        let order = sorted_order(vars, k);
        lemma_sorted_order_is_stable_sort(vars, (k - 1) as nat);
        lemma_insert_position_splits(vars, previous, v);
        assert(order == previous.insert(p, (k - 1) as usize));
        assert forall|i: int, j: int| #![trigger order[i], order[j]] 0 <= i < j < k implies order[i] != order[j]
            && key_le(vars[order[i] as int], vars[order[j] as int])
            && (vars[order[i] as int].group == vars[order[j] as int].group
                && vars[order[i] as int].binding == vars[order[j] as int].binding ==> order[i] < order[j]) by {
            if j < p {
                assert(order[i] == previous[i] && order[j] == previous[j]);
                assert(previous[i] != previous[j]);
            } else if j == p {
                assert(order[i] == previous[i] && order[j] == (k - 1) as usize);
                assert(previous[i] < k - 1);
                assert(key_le(vars[previous[i] as int], v));
            } else if i < p {
                assert(order[i] == previous[i] && order[j] == previous[j - 1]);
                assert(previous[i] != previous[j - 1]);
            } else if i == p {
                assert(order[i] == (k - 1) as usize && order[j] == previous[j - 1]);
                assert(previous[j - 1] < k - 1);
                assert(!key_le(vars[previous[j - 1] as int], v));
            } else {
                assert(order[i] == previous[i - 1] && order[j] == previous[j - 1]);
                assert(previous[i - 1] != previous[j - 1]);
            }
        }
    }
}

proof fn lemma_parameters_come_from_variables(sorted: Seq<VariableView>, k: nat, identifier: Seq<char>)
    requires
        k <= sorted.len(),
        parameters_after(sorted, k).dom().contains(identifier),
    ensures
        exists|i: int|
            0 <= i < k && #[trigger] sorted[i].identifier == identifier && parameters_after(sorted, k)[identifier] == (
                sorted[i].group,
                sorted[i].binding,
            ),
    decreases k,
{
    let v = sorted[k - 1];
    if v.identifier == identifier {
        assert(sorted[k - 1].identifier == identifier);
    } else {
        lemma_parameters_come_from_variables(sorted, (k - 1) as nat, identifier);
        let i = choose|i: int|
            0 <= i < k - 1 && #[trigger] sorted[i].identifier == identifier && parameters_after(sorted, (k - 1) as nat)[identifier] == (
                sorted[i].group,
                sorted[i].binding,
            );
        assert(sorted[i].identifier == identifier);
    }
}

/// Law: each parameter of a shader is the identifier of one of its variables, bound at that
/// variable's group and binding.
pub proof fn lemma_parameters_are_variables(vars: Seq<VariableView>, identifier: Seq<char>)
    requires
        vars.len() <= usize::MAX,
        parameters_of(vars).dom().contains(identifier),
    ensures
        exists|j: int|
            0 <= j < vars.len() && #[trigger] vars[j].identifier == identifier && parameters_of(vars)[identifier] == (
                vars[j].group,
                vars[j].binding,
            ),
{
    let order = sorted_order(vars, vars.len());
    let sorted = sorted_variables(vars);
    lemma_sorted_order_is_stable_sort(vars, vars.len());
    lemma_parameters_come_from_variables(sorted, sorted.len(), identifier);
    let i = choose|i: int|
        0 <= i < sorted.len() && #[trigger] sorted[i].identifier == identifier && parameters_after(sorted, sorted.len())[identifier] == (
            sorted[i].group,
            sorted[i].binding,
        );
    let j = order[i] as int;
    assert(sorted[i] == vars[j]);
    assert(vars[j].identifier == identifier);
}

/// What holds of the layouts that the first `k` sorted variables fill: one group up to the
/// last variable's group, entries in binding order within each group, and the last group's
/// entries bound no later than the last variable.
pub open spec fn layouts_ordered(sorted: Seq<VariableView>, k: nat, groups: Seq<Seq<BindGroupLayoutEntry>>) -> bool {
    &&& k == 0 ==> groups.len() == 0
    &&& k > 0 ==> groups.len() == sorted[k - 1].group + 1
    &&& forall|g: int, i: int, j: int|
        #![trigger groups[g][i], groups[g][j]]
        0 <= g < groups.len() && 0 <= i < j < groups[g].len() ==> groups[g][i].binding <= groups[g][j].binding
    &&& k > 0 ==> forall|i: int|
        0 <= i < groups.last().len() ==> #[trigger] groups.last()[i].binding <= sorted[k - 1].binding
}

proof fn lemma_layouts_after_ordered(sorted: Seq<VariableView>, k: nat)
    requires
        k <= sorted.len(),
        forall|i: int, j: int| 0 <= i < j < sorted.len() ==> key_le(#[trigger] sorted[i], #[trigger] sorted[j]),
    ensures
        layouts_after(sorted, k) matches Some(groups) ==> layouts_ordered(sorted, k, groups),
    decreases k,
{
    if k > 0 {
        lemma_layouts_after_ordered(sorted, (k - 1) as nat);
        if let Some(groups) = layouts_after(sorted, (k - 1) as nat) {
            let v = sorted[k - 1];
            let g = v.group as int;
            let grown = if groups.len() <= g {
                groups.push(Seq::empty())
            } else {
                groups
            };
            if g < grown.len() {
                let after = grown.update(g, grown[g].push(layout_entry_of(v)));
                assert(layouts_after(sorted, k) == Some(after));
                if k > 1 {
                    assert(key_le(sorted[k - 2], sorted[k - 1]));
                }
                assert(g == after.len() - 1);
                assert forall|h: int, i: int, j: int|
                    #![trigger after[h][i], after[h][j]]
                    0 <= h < after.len() && 0 <= i < j < after[h].len() implies after[h][i].binding <= after[h][j].binding by {
                    if h == g && j == after[h].len() - 1 {
                        if grown.len() == groups.len() {
                            assert(after[h][i] == groups[h][i]);
                        }
                    } else if h == g {
                        assert(after[h][i] == grown[h][i] && after[h][j] == grown[h][j]);
                        if grown.len() == groups.len() {
                            assert(groups[h][i].binding <= groups[h][j].binding);
                        }
                    } else {
                        assert(after[h] == groups[h]);
                        assert(groups[h][i].binding <= groups[h][j].binding);
                    }
                }
                assert forall|i: int| 0 <= i < after.last().len() implies #[trigger] after.last()[i].binding <= sorted[k - 1].binding by {
                    if i < after.last().len() - 1 {
                        assert(grown.len() == groups.len());
                        assert(after.last()[i] == groups.last()[i]);
                    }
                }
            }
        }
    }
}

/// Law: the layout entries of each bind group come in binding order.
pub proof fn lemma_layout_entries_in_binding_order(vars: Seq<VariableView>)
    requires
        vars.len() <= usize::MAX,
        layouts_of(vars) is Some,
    ensures
        forall|g: int, i: int, j: int|
            #![trigger layouts_of(vars)->Some_0[g][i], layouts_of(vars)->Some_0[g][j]]
            0 <= g < layouts_of(vars)->Some_0.len() && 0 <= i < j < layouts_of(vars)->Some_0[g].len()
                ==> layouts_of(vars)->Some_0[g][i].binding <= layouts_of(vars)->Some_0[g][j].binding,
{
    let order = sorted_order(vars, vars.len());
    let sorted = sorted_variables(vars);
    lemma_sorted_order_is_stable_sort(vars, vars.len());
    assert forall|i: int, j: int| 0 <= i < j < sorted.len() implies key_le(#[trigger] sorted[i], #[trigger] sorted[j]) by {
        assert(sorted[i] == vars[order[i] as int] && sorted[j] == vars[order[j] as int]);
    }
    lemma_layouts_after_ordered(sorted, sorted.len());
}

proof fn lemma_sorted_order_covers(vars: Seq<VariableView>, j: int)
    requires
        vars.len() <= usize::MAX,
        0 <= j < vars.len(),
    ensures
        exists|i: int| 0 <= i < vars.len() && #[trigger] sorted_order(vars, vars.len())[i] == j,
{
    let n = vars.len();
    let order = sorted_order(vars, n);
    lemma_sorted_order_is_stable_sort(vars, n);
    let indices = order.map_values(|x: usize| x as int);
    assert(indices.no_duplicates()) by {
        assert forall|a: int, b: int| 0 <= a < indices.len() && 0 <= b < indices.len() && a != b implies indices[a] != indices[b] by {
            if a < b {
                assert(order[a] != order[b]);
            } else {
                assert(order[b] != order[a]);
            }
        }
    }
    indices.unique_seq_to_set();
    vstd::set_lib::lemma_int_range(0, n as int);
    let range = vstd::set_lib::set_int_range(0, n as int);
    assert(indices.to_set().subset_of(range)) by {
        assert forall|x: int| indices.to_set().contains(x) implies range.contains(x) by {
            let a = choose|a: int| 0 <= a < indices.len() && indices[a] == x;
            assert(order[a] < n);
        }
    }
    vstd::set_lib::lemma_len_subset(indices.to_set(), range);
    vstd::set_lib::lemma_subset_equality(indices.to_set(), range);
    assert(range.contains(j));
    assert(indices.to_set().contains(j));
    let i = choose|i: int| 0 <= i < indices.len() && indices[i] == j;
    assert(order[i] == j);
}

proof fn lemma_parameters_after_keys(sorted: Seq<VariableView>, k: nat, i: int)
    requires
        k <= sorted.len(),
        0 <= i < k,
    ensures
        parameters_after(sorted, k).dom().contains(sorted[i].identifier),
    decreases k,
{
    if i < k - 1 {
        lemma_parameters_after_keys(sorted, (k - 1) as nat, i);
    }
}

/// Law: the identifier of each variable of a shader is one of its parameters.
pub proof fn lemma_variables_are_parameters(vars: Seq<VariableView>, j: int)
    requires
        vars.len() <= usize::MAX,
        0 <= j < vars.len(),
    ensures
        parameters_of(vars).dom().contains(vars[j].identifier),
{
    let order = sorted_order(vars, vars.len());
    let sorted = sorted_variables(vars);
    lemma_sorted_order_is_stable_sort(vars, vars.len());
    lemma_sorted_order_covers(vars, j);
    let i = choose|i: int| 0 <= i < vars.len() && #[trigger] order[i] == j;
    assert(sorted[i] == vars[j]);
    lemma_parameters_after_keys(sorted, sorted.len(), i);
}

/// No variable of `vars` other than the one at `j` has its identifier.
pub open spec fn unique_identifier(vars: Seq<VariableView>, j: int) -> bool {
    forall|k: int| 0 <= k < vars.len() && k != j ==> #[trigger] vars[k].identifier != vars[j].identifier
}

/// Law: a variable whose identifier no other variable of the shader has is a parameter,
/// bound at that variable's group and binding.
pub proof fn lemma_unique_variable_parameter(vars: Seq<VariableView>, j: int)
    requires
        vars.len() <= usize::MAX,
        0 <= j < vars.len(),
        unique_identifier(vars, j),
    ensures
        parameters_of(vars).dom().contains(vars[j].identifier),
        parameters_of(vars)[vars[j].identifier] == (vars[j].group, vars[j].binding),
{
    lemma_variables_are_parameters(vars, j);
    lemma_parameters_are_variables(vars, vars[j].identifier);
}

/// Whether variable `a` comes no later than variable `b`.
fn key_le_exec(a: &Variable, b: &Variable) -> (r: bool)
    ensures
        r == key_le(a@, b@),
{
    a.attributes.group < b.attributes.group || (a.attributes.group == b.attributes.group
        && a.attributes.binding <= b.attributes.binding)
}

/// The indices of `vars` stably sorted by group, then binding.
fn sort_variables(vars: &Vec<Variable>) -> (order: Vec<usize>)
    ensures
        order@ == sorted_order(vars@.map_values(|v: Variable| v@), vars@.len()),
        forall|i: int| 0 <= i < order@.len() ==> #[trigger] order@[i] < vars@.len(),
{
    let ghost views = vars@.map_values(|v: Variable| v@);
    let mut order: Vec<usize> = Vec::new();
    let n = vars.len();
    let mut k: usize = 0;
    while k < n
        invariant
            n == vars@.len(),
            views == vars@.map_values(|v: Variable| v@),
            k <= n,
            order@ == sorted_order(views, k as nat),
        decreases n - k,
    {
        proof {
            lemma_sorted_order_indices(views, k as nat);
            assert(order@.skip(0) =~= order@);
        }
        let mut p: usize = 0;
        while p < order.len() && key_le_exec(&vars[order[p]], &vars[k])
            invariant
                n == vars@.len(),
                views == vars@.map_values(|v: Variable| v@),
                k < n,
                order@ == sorted_order(views, k as nat),
                order@.len() == k,
                forall|i: int| 0 <= i < k ==> #[trigger] order@[i] < k,
                p <= order@.len(),
                insert_position(views, order@, views[k as int]) == p + insert_position(
                    views,
                    order@.skip(p as int),
                    views[k as int],
                ),
            decreases order@.len() - p,
        {
            proof {
                assert(order@.skip(p as int).drop_first() =~= order@.skip(p + 1));
            }
            p = p + 1;
        }
        proof {
            if p == order@.len() {
                assert(order@.skip(p as int).len() == 0);
            }
        }
        order.insert(p, k);
        k = k + 1;
    }
    proof {
        lemma_sorted_order_indices(views, n as nat);
    }
    order
}

/// The parameter of each identifier in `entries`: the last entry with that identifier wins.
pub closed spec fn entries_parameters(entries: Seq<(String, ParameterMetadata)>) -> Map<Seq<char>, (u32, u32)>
    decreases entries.len(),
{
    if entries.len() == 0 {
        Map::empty()
    } else {
        let last = entries.last();
        entries_parameters(entries.drop_last()).insert(last.0@, (last.1.group, last.1.binding))
    }
}

proof fn lemma_layouts_stay_undefined(sorted: Seq<VariableView>, i: nat, k: nat)
    requires
        i <= k <= sorted.len(),
        layouts_after(sorted, i) is None,
    ensures
        layouts_after(sorted, k) is None,
    decreases k - i,
{
    if i < k {
        lemma_layouts_stay_undefined(sorted, i, (k - 1) as nat);
    }
}

/// What the engine knows of a shader: its name, where each parameter is bound, and the
/// layout entries of each bind group.
pub struct ShaderMetadata {
    name: String,
    parameters_metadata: Vec<(String, ParameterMetadata)>,
    bind_group_layout_entries: Vec<Vec<BindGroupLayoutEntry>>,
}

impl ShaderMetadata {
    pub closed spec fn spec_name(&self) -> Seq<char> {
        self.name@
    }

    /// The group and the binding of each parameter, by identifier.
    pub closed spec fn spec_parameters(&self) -> Map<Seq<char>, (u32, u32)> {
        entries_parameters(self.parameters_metadata@)
    }

    /// The layout entries of each bind group.
    pub closed spec fn spec_layouts(&self) -> Seq<Seq<BindGroupLayoutEntry>> {
        self.bind_group_layout_entries@.map_values(|g: Vec<BindGroupLayoutEntry>| g@)
    }

    /// The metadata of the shader `shader_name` whose global variables are `variables`:
    /// the variables are taken stably sorted by group, then binding; `None` where a group
    /// number would be skipped.
    pub fn try_from_variables(shader_name: &str, variables: &Vec<Variable>) -> (r: Option<Self>)
        ensures
            match layouts_of(variables@.map_values(|v: Variable| v@)) {
                None => r is None,
                Some(layouts) => r matches Some(m) && m.spec_name() == shader_name@
                    && m.spec_parameters() == parameters_of(variables@.map_values(|v: Variable| v@))
                    && m.spec_layouts() == layouts,
            },
    {
        let ghost views = variables@.map_values(|v: Variable| v@);
        let ghost sorted = sorted_variables(views);
        let order = sort_variables(variables);
        proof {
            lemma_sorted_order_indices(views, views.len());
        }
        let mut parameters: Vec<(String, ParameterMetadata)> = Vec::new();
        let mut groups: Vec<Vec<BindGroupLayoutEntry>> = Vec::new();
        proof {
            assert(groups@.map_values(|g: Vec<BindGroupLayoutEntry>| g@) =~= Seq::<Seq<BindGroupLayoutEntry>>::empty());
        }
        let mut i: usize = 0;
        while i < order.len()
            invariant
                views == variables@.map_values(|v: Variable| v@),
                sorted == sorted_variables(views),
                order@ == sorted_order(views, views.len()),
                order@.len() == views.len(),
                forall|j: int| 0 <= j < order@.len() ==> #[trigger] order@[j] < variables@.len(),
                i <= order@.len(),
                entries_parameters(parameters@) == parameters_after(sorted, i as nat),
                layouts_after(sorted, i as nat) == Some(groups@.map_values(|g: Vec<BindGroupLayoutEntry>| g@)),
            decreases order@.len() - i,
        {
            let variable = &variables[order[i]];
            proof {
                assert(sorted[i as int] == variable@);
            }
            let ghost before = parameters@;
            parameters.push(
                (
                    variable.identifier.clone(),
                    ParameterMetadata {
                        group: variable.attributes.group,
                        binding: variable.attributes.binding,
                    },
                ),
            );
            proof {
                assert(parameters@.drop_last() =~= before);
            }
            let group = variable.attributes.group as usize;
            let ghost previous = groups@.map_values(|g: Vec<BindGroupLayoutEntry>| g@);
            if groups.len() <= group {
                groups.push(Vec::new());
                proof {
                    assert(groups@.map_values(|g: Vec<BindGroupLayoutEntry>| g@) =~= previous.push(Seq::empty()));
                }
            }
            if group >= groups.len() {
                proof {
                    lemma_layouts_stay_undefined(sorted, (i + 1) as nat, sorted.len());
                }
                return None;
            }
            let ghost grown = groups@.map_values(|g: Vec<BindGroupLayoutEntry>| g@);
            let entry = BindGroupLayoutEntry {
                binding: variable.attributes.binding,
                visibility: ShaderStage::VertexFragment,
                ty: variable.binding_type(),
            };
            groups[group].push(entry);
            proof {
                assert(groups@.map_values(|g: Vec<BindGroupLayoutEntry>| g@) =~= grown.update(
                    group as int,
                    grown[group as int].push(layout_entry_of(sorted[i as int])),
                ));
            }
            i = i + 1;
        }
        Some(
            ShaderMetadata {
                name: shader_name.to_owned(),
                parameters_metadata: parameters,
                bind_group_layout_entries: groups,
            },
        )
    }

    /// The metadata of the shader `shader_name` whose global variables are `variables`, whose
    /// groups skip no number.
    pub fn from_variables(shader_name: &str, variables: &Vec<Variable>) -> (m: Self)
        requires
            layouts_of(variables@.map_values(|v: Variable| v@)) is Some,
        ensures
            m.spec_name() == shader_name@,
            m.spec_parameters() == parameters_of(variables@.map_values(|v: Variable| v@)),
            Some(m.spec_layouts()) == layouts_of(variables@.map_values(|v: Variable| v@)),
    {
        Self::try_from_variables(shader_name, variables).unwrap()
    }

    /// The metadata of the shader `shader_name` with WGSL source `source`.
    pub fn new(shader_name: &str, source: &str) -> (r: Result<Self, GraphicsError>)
        requires
            source.spec_bytes().len() <= u32::MAX,
            shader_metadata_defined(source.spec_bytes()),
        ensures
            global_variables(source.spec_bytes()) matches Some(Ok(vars)) ==> (r matches Ok(m)
                && m.spec_name() == shader_name@
                && m.spec_parameters() == parameters_of(vars)
                && Some(m.spec_layouts()) == layouts_of(vars)),
            global_variables(source.spec_bytes()) matches Some(Err(e)) ==> (r matches Err(x) && x@ == e),
            global_variables(source.spec_bytes()) matches Some(Ok(vars)) ==> forall|j: int|
                0 <= j < vars.len() && #[trigger] unique_identifier(vars, j) ==> (r matches Ok(m)
                    && m.spec_parameters().dom().contains(vars[j].identifier)
                    && m.spec_parameters()[vars[j].identifier] == (vars[j].group, vars[j].binding)),
    {
        let variables = match extract_global_variables_from_shader_source(source) {
            Ok(variables) => variables,
            Err(e) => return Err(e),
        };
        let m = Self::from_variables(shader_name, &variables);
        proof {
            let vars = variables@.map_values(|v: Variable| v@);
            assert forall|j: int| 0 <= j < vars.len() && #[trigger] unique_identifier(vars, j) implies m.spec_parameters().dom().contains(
                vars[j].identifier,
            ) && m.spec_parameters()[vars[j].identifier] == (vars[j].group, vars[j].binding) by {
                lemma_unique_variable_parameter(vars, j);
            }
        }
        Ok(m)
    }

    /// Like `new`, but `None` where the source's variables cannot be walked or their groups
    /// skip a number.
    pub fn checked_new(shader_name: &str, source: &str) -> (r: Option<Result<Self, GraphicsError>>)
        requires
            source.spec_bytes().len() <= u32::MAX,
        ensures
            r is None <==> !shader_metadata_defined(source.spec_bytes()),
            global_variables(source.spec_bytes()) matches Some(Ok(vars)) ==> (layouts_of(vars) is Some
                ==> (r matches Some(Ok(m))
                && m.spec_name() == shader_name@
                && m.spec_parameters() == parameters_of(vars)
                && Some(m.spec_layouts()) == layouts_of(vars))),
            global_variables(source.spec_bytes()) matches Some(Err(e)) ==> (r matches Some(Err(x)) && x@ == e),
    {
        match checked_extract_global_variables(source) {
            None => None,
            Some(Err(e)) => Some(Err(e)),
            Some(Ok(variables)) => match Self::try_from_variables(shader_name, &variables) {
                None => None,
                Some(_) => Some(Self::new(shader_name, source)),
            },
        }
    }

    pub fn name(&self) -> (n: &str)
        ensures
            n@ == self.spec_name(),
    {
        self.name.as_str()
    }

    /// Where the parameter `parameter_identifier` is bound.
    pub fn parameter_metadata(&self, parameter_identifier: &str) -> (p: &ParameterMetadata)
        requires
            self.spec_parameters().dom().contains(parameter_identifier@),
        ensures
            (p.spec_group(), p.spec_binding()) == self.spec_parameters()[parameter_identifier@],
    {
        let entries = &self.parameters_metadata;
        let mut i = entries.len();
        assert(entries@.take(i as int) =~= entries@);
        while i > 0
            invariant
                entries@ == self.parameters_metadata@,
                i <= entries@.len(),
                entries_parameters(entries@).dom().contains(parameter_identifier@)
                    == entries_parameters(entries@.take(i as int)).dom().contains(parameter_identifier@),
                entries_parameters(entries@).dom().contains(parameter_identifier@)
                    ==> entries_parameters(entries@).index(parameter_identifier@)
                        == entries_parameters(entries@.take(i as int)).index(parameter_identifier@),
            decreases i,
        {
            proof {
                assert(entries@.take(i as int).drop_last() =~= entries@.take(i - 1));
            }
            if str_eq(entries[i - 1].0.as_str(), parameter_identifier) {
                return &entries[i - 1].1;
            }
            i = i - 1;
        }
        proof {
            assert(entries@.take(0).len() == 0);
        }
        &entries[0].1
    }

    /// The layout entries of each bind group.
    pub fn bind_group_layout_entries(&self) -> (e: &[Vec<BindGroupLayoutEntry>])
        ensures
            e@.map_values(|g: Vec<BindGroupLayoutEntry>| g@) == self.spec_layouts(),
    {
        self.bind_group_layout_entries.as_slice()
    }
}

} // verus!
