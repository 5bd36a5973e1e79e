//! The mesh/model loader: turns the raw sub-meshes parsed out of a
//! 3D-model file into render-ready meshes, and owns the per-model texture
//! cache that guarantees each texture path is uploaded at most once.
//!
//! Scalar vertex components travel through this module as raw 32-bit
//! patterns (`u32`): the loader only rearranges them, it never computes on
//! them, so their numeric reading is left to the GPU upload outside this
//! crate.

use vstd::prelude::*;

use crate::LoadError;

verus! {

/// What the supported 3D-model format (OBJ, triangulated, one index
/// stream) holds in the given file bytes: the raw sub-meshes, in file
/// order, or `None` when the bytes cannot be parsed. A pure function of
/// the bytes.
pub uninterp spec fn parsed_obj(bytes: Seq<u8>) -> Option<Seq<SubMeshView>>;

/// One vertex of the unified layout: position (3 components), normal (3
/// components), texture coordinate (2 components), each component a raw
/// 32-bit scalar pattern.
#[derive(Clone, Copy, PartialEq, Eq, Structural, Debug)]
pub struct FGVertex {
    pub px: u32,
    pub py: u32,
    pub pz: u32,
    pub nx: u32,
    pub ny: u32,
    pub nz: u32,
    pub tu: u32,
    pub tv: u32,
}

/// One render-ready mesh: the unified vertices and the indices that
/// reference them. Immutable once built; the GPU buffer pair that mirrors
/// it is uploaded outside this crate.
pub struct FGMesh {
    pub vertices: Vec<FGVertex>,
    pub indices: Vec<u32>,
}

/// A mesh is well formed when every index references one of its vertices.
pub open spec fn mesh_wf(m: &FGMesh) -> bool {
    forall|i: int| 0 <= i < m.indices@.len() ==> (m.indices@[i] as nat) < m.vertices@.len()
}

/// What a loaded texture is used for in the shader.
#[derive(Clone, Copy, PartialEq, Eq, Structural, Debug)]
pub enum TextureKind {
    Diffuse,
    Specular,
    Normal,
}

/// A texture entry of a model's cache: the opaque GPU handle, the semantic
/// kind, and the source path the cache is keyed by.
pub struct FGTexture {
    pub id: u32,
    pub kind: TextureKind,
    pub path: String,
}

impl FGTexture {
    /// A copy of this entry, field for field.
    pub fn duplicate(&self) -> (r: FGTexture)
        ensures
            r == *self,
    {
        FGTexture { id: self.id, kind: self.kind, path: self.path.clone() }
    }
}

/// One raw sub-mesh as parsed from a model file: flattened position,
/// normal and texture-coordinate arrays (raw 32-bit scalar patterns), the
/// index array, and an optional reference into the file's material list.
pub struct SubMeshData {
    pub name: String,
    pub positions: Vec<u32>,
    pub normals: Vec<u32>,
    pub texcoords: Vec<u32>,
    pub indices: Vec<u32>,
    pub material_id: Option<usize>,
}

/// The abstract value of a [`SubMeshData`].
pub ghost struct SubMeshView {
    pub name: Seq<char>,
    pub positions: Seq<u32>,
    pub normals: Seq<u32>,
    pub texcoords: Seq<u32>,
    pub indices: Seq<u32>,
    pub material_id: Option<usize>,
}

impl View for SubMeshData {
    type V = SubMeshView;

    closed spec fn view(&self) -> SubMeshView {
        SubMeshView {
            name: self.name@,
            positions: self.positions@,
            normals: self.normals@,
            texcoords: self.texcoords@,
            indices: self.indices@,
            material_id: self.material_id,
        }
    }
}

/// The abstract values of a sequence of raw sub-meshes.
pub open spec fn submesh_views(s: Seq<SubMeshData>) -> Seq<SubMeshView> {
    s.map_values(|x: SubMeshData| x@)
}

/// The three arrays of a sub-mesh agree on one vertex count: the position
/// array splits into groups of 3, the normal array has the same length,
/// and the texture-coordinate array has one pair per position group.
pub open spec fn submesh_consistent(s: SubMeshView) -> bool {
    &&& s.positions.len() % 3 == 0
    &&& s.normals.len() == s.positions.len()
    &&& s.texcoords.len() % 2 == 0
    &&& s.texcoords.len() / 2 == s.positions.len() / 3
}

/// Every index of the sub-mesh references one of its vertices.
pub open spec fn submesh_indices_in_range(s: SubMeshView) -> bool {
    forall|i: int| 0 <= i < s.indices.len() ==> (s.indices[i] as nat) < s.positions.len() / 3
}

/// Why loading one sub-mesh fails, or `None` when it is loadable:
/// inconsistent arrays are reported before an out-of-range index.
pub open spec fn submesh_error(s: SubMeshView) -> Option<LoadError> {
    if !submesh_consistent(s) {
        Some(LoadError::InconsistentVertexData)
    } else if !submesh_indices_in_range(s) {
        Some(LoadError::IndexOutOfRange)
    } else {
        None
    }
}

/// The first error among the sub-meshes, in order, or `None` when all are
/// loadable.
pub open spec fn submeshes_error(subs: Seq<SubMeshView>) -> Option<LoadError>
    decreases subs.len(),
{
    if subs.len() == 0 {
        None
    } else if submesh_error(subs[0]) is Some {
        submesh_error(subs[0])
    } else {
        submeshes_error(subs.drop_first())
    }
}

/// Vertex `i` of a sub-mesh under the de-interleaved unified layout:
/// position components `3i..3i+2`, normal components `3i..3i+2`, texture
/// coordinates `2i..2i+1`.
pub open spec fn vertex_of(s: SubMeshView, i: int) -> FGVertex
    recommends
        0 <= i,
        3 * i + 2 < s.positions.len(),
        3 * i + 2 < s.normals.len(),
        2 * i + 1 < s.texcoords.len(),
{
    FGVertex {
        px: s.positions[3 * i],
        py: s.positions[3 * i + 1],
        pz: s.positions[3 * i + 2],
        nx: s.normals[3 * i],
        ny: s.normals[3 * i + 1],
        nz: s.normals[3 * i + 2],
        tu: s.texcoords[2 * i],
        tv: s.texcoords[2 * i + 1],
    }
}

/// Every mesh built from a loadable sub-mesh is well formed: its index
/// array, copied verbatim, only references vertices the sub-mesh defined.
pub proof fn lemma_loaded_mesh_wf(s: SubMeshView, m: &FGMesh)
    requires
        submesh_error(s) is None,
        mesh_matches(s, m),
    ensures
        mesh_wf(m),
{
}

/// The mesh built from a loadable sub-mesh: one unified vertex per
/// position group, the index array copied verbatim.
pub open spec fn mesh_matches(s: SubMeshView, m: &FGMesh) -> bool {
    &&& m.indices@ == s.indices
    &&& m.vertices@.len() == s.positions.len() / 3
    &&& forall|i: int| 0 <= i < m.vertices@.len() ==> m.vertices@[i] == vertex_of(s, i)
}

proof fn lemma_group_index_bound(i: int, n: int, g: int)
    requires
        0 <= i,
        2 <= g,
        n % g == 0,
        i < n / g,
    ensures
        g * i + (g - 1) < n,
{
    assert(g * (n / g) == n && g * i + (g - 1) < n) by (nonlinear_arith)
        requires
            0 <= i,
            2 <= g,
            n % g == 0,
            i < n / g,
    ;
}

proof fn lemma_submeshes_error_skip(subs: Seq<SubMeshView>, k: int)
    requires
        0 <= k <= subs.len(),
        forall|i: int| 0 <= i < k ==> submesh_error(subs[i]) is None,
    ensures
        submeshes_error(subs) == submeshes_error(subs.skip(k)),
    decreases k,
{
    if k > 0 {
        lemma_submeshes_error_skip(subs, k - 1);
        assert(subs.skip(k - 1)[0] == subs[k - 1]);
        assert(subs.skip(k - 1).drop_first() =~= subs.skip(k));
    } else {
        assert(subs.skip(0) =~= subs);
    }
}

/// The first texture of a cache whose path is `path`, or `None`: the key
/// under which decode/upload work is shared.
pub open spec fn cache_lookup(cache: Seq<FGTexture>, path: Seq<char>) -> Option<FGTexture>
    decreases cache.len(),
{
    if cache.len() == 0 {
        None
    } else if cache[0].path@ == path {
        Some(cache[0])
    } else {
        cache_lookup(cache.drop_first(), path)
    }
}

proof fn lemma_cache_lookup_skip(cache: Seq<FGTexture>, path: Seq<char>, k: int)
    requires
        0 <= k <= cache.len(),
        forall|i: int| 0 <= i < k ==> cache[i].path@ != path,
    ensures
        cache_lookup(cache, path) == cache_lookup(cache.skip(k), path),
    decreases k,
{
    if k > 0 {
        lemma_cache_lookup_skip(cache, path, k - 1);
        assert(cache.skip(k - 1)[0] == cache[k - 1]);
        assert(cache.skip(k - 1).drop_first() =~= cache.skip(k));
    } else {
        assert(cache.skip(0) =~= cache);
    }
}

/// A model: the meshes of one model file, and the cache of the textures
/// loaded for it so far, keyed by source path, so that no texture is
/// uploaded more than once per model.
pub struct FGModel {
    pub meshes: Vec<FGMesh>,
    pub textures_loaded: Vec<FGTexture>,
    pub directory: String,
}

impl Default for FGModel {
    /// An empty model: no meshes, an empty texture cache.
    fn default() -> (r: FGModel)
        ensures
            r.meshes@ == Seq::<FGMesh>::empty(),
            r.textures_loaded@ == Seq::<FGTexture>::empty(),
            r.directory@ == Seq::<char>::empty(),
    {
        FGModel { meshes: Vec::new(), textures_loaded: Vec::new(), directory: String::new() }
    }
}

impl FGModel {
    /// Builds one mesh per loadable sub-mesh and appends them to this
    /// model's meshes, in order. When a sub-mesh is inconsistent or an
    /// index is out of range the first such error is returned and the
    /// model is left exactly as it was: no partially loaded state
    /// remains.
    pub fn load_model(&mut self, submeshes: &Vec<SubMeshData>) -> (r: Result<(), LoadError>)
        ensures
            r is Ok <==> submeshes_error(submesh_views(submeshes@)) is None,
            r is Err ==> *final(self) == *old(self) && Some(r->Err_0) == submeshes_error(
                submesh_views(submeshes@),
            ),
            r is Ok ==> {
                &&& final(self).meshes@.len() == old(self).meshes@.len() + submeshes@.len()
                &&& forall|i: int|
                    0 <= i < old(self).meshes@.len() ==> final(self).meshes@[i] == old(
                        self,
                    ).meshes@[i]
                &&& forall|i: int|
                    0 <= i < submeshes@.len() ==> mesh_matches(
                        submeshes@[i]@,
                        &final(self).meshes@[old(self).meshes@.len() + i],
                    )
                &&& final(self).textures_loaded@ == old(self).textures_loaded@
                &&& final(self).directory@ == old(self).directory@
            },
    {
        let ghost subs = submesh_views(submeshes@);
        let mut built: Vec<FGMesh> = Vec::new();
        let mut k: usize = 0;
        let mut failure: Option<LoadError> = None;
        while failure.is_none() && k < submeshes.len()
            invariant
                k <= submeshes@.len(),
                subs == submesh_views(submeshes@),
                subs.len() == submeshes@.len(),
                forall|i: int| 0 <= i < subs.len() ==> subs[i] == submeshes@[i]@,
                failure is None ==> {
                    &&& built@.len() == k
                    &&& forall|i: int| 0 <= i < k ==> submesh_error(subs[i]) is None
                    &&& forall|i: int| 0 <= i < k ==> mesh_matches(subs[i], &built@[i])
                },
                failure is Some ==> Some(failure->Some_0) == submeshes_error(subs),
            decreases submeshes@.len() - k + (if failure is None { 1int } else { 0int }),
        {
            proof {
                lemma_submeshes_error_skip(subs, k as int);
                assert(subs.skip(k as int)[0] == subs[k as int]);
            }
            let sub = &submeshes[k];
            let n_pos = sub.positions.len();
            if n_pos % 3 != 0 || sub.normals.len() != n_pos || sub.texcoords.len() % 2 != 0
                || sub.texcoords.len() / 2 != n_pos / 3 {
                failure = Some(LoadError::InconsistentVertexData);
                proof {
                    assert(!submesh_consistent(subs[k as int]));
                    assert(submeshes_error(subs) == Some(LoadError::InconsistentVertexData));
                }
            } else {
                let num_vertices = n_pos / 3;
                let mut vertices: Vec<FGVertex> = Vec::new();
                let mut vi: usize = 0;
                while vi < num_vertices
                    invariant
                        vi <= num_vertices,
                        num_vertices == sub.positions@.len() / 3,
                        sub.positions@.len() == n_pos,
                        sub.texcoords@.len() <= usize::MAX,
                        sub.positions@.len() % 3 == 0,
                        sub.normals@.len() == sub.positions@.len(),
                        sub.texcoords@.len() % 2 == 0,
                        sub.texcoords@.len() / 2 == num_vertices,
                        vertices@.len() == vi,
                        forall|i: int| 0 <= i < vi ==> vertices@[i] == vertex_of(sub@, i),
                    decreases num_vertices - vi,
                {
                    proof {
                        lemma_group_index_bound(vi as int, sub.positions@.len() as int, 3);
                        lemma_group_index_bound(vi as int, sub.texcoords@.len() as int, 2);
                    }
                    let v = FGVertex {
                        px: sub.positions[3 * vi],
                        py: sub.positions[3 * vi + 1],
                        pz: sub.positions[3 * vi + 2],
                        nx: sub.normals[3 * vi],
                        ny: sub.normals[3 * vi + 1],
                        nz: sub.normals[3 * vi + 2],
                        tu: sub.texcoords[2 * vi],
                        tv: sub.texcoords[2 * vi + 1],
                    };
                    vertices.push(v);
                    vi = vi + 1;
                }
                let mut indices: Vec<u32> = Vec::new();
                let mut ii: usize = 0;
                let mut out_of_range: bool = false;
                proof {
                    assert(indices@ =~= sub.indices@.take(0));
                }
                while !out_of_range && ii < sub.indices.len()
                    invariant
                        ii <= sub.indices@.len(),
                        num_vertices == sub.positions@.len() / 3,
                        !out_of_range ==> {
                            &&& indices@ == sub.indices@.take(ii as int)
                            &&& forall|i: int|
                                0 <= i < ii ==> (sub.indices@[i] as nat) < num_vertices
                        },
                        out_of_range ==> (sub.indices@[ii as int] as nat) >= num_vertices
                            && ii < sub.indices@.len(),
                    decreases sub.indices@.len() - ii + (if out_of_range { 0int } else { 1int }),
                {
                    let idx = sub.indices[ii];
                    if (idx as usize) >= num_vertices {
                        out_of_range = true;
                    } else {
                        indices.push(idx);
                        proof {
                            assert(indices@ =~= sub.indices@.take(ii + 1));
                        }
                        ii = ii + 1;
                    }
                }
                if out_of_range {
                    failure = Some(LoadError::IndexOutOfRange);
                    proof {
                        assert(submesh_consistent(subs[k as int]));
                        assert(subs[k as int].indices[ii as int] == sub.indices@[ii as int]);
                        assert(!submesh_indices_in_range(subs[k as int]));
                        assert(submeshes_error(subs) == Some(LoadError::IndexOutOfRange));
                    }
                } else {
                    proof {
                        assert(indices@ =~= sub.indices@);
                    }
                    built.push(FGMesh { vertices, indices });
                    k = k + 1;
                }
            }
        }
        proof {
            if failure is None {
                lemma_submeshes_error_skip(subs, subs.len() as int);
                assert(subs.skip(subs.len() as int) =~= Seq::<SubMeshView>::empty());
            }
        }
        match failure {
            Some(e) => Err(e),
            None => {
                let ghost m0 = self.meshes@;
                let ghost b0 = built@;
                self.meshes.append(&mut built);
                proof {
                    assert(self.meshes@ == m0 + b0);
                    assert forall|i: int|
                        0 <= i < submeshes@.len() implies mesh_matches(
                        submeshes@[i]@,
                        &self.meshes@[m0.len() + i],
                    ) by {
                        assert(subs[i] == submeshes@[i]@);
                        assert(self.meshes@[m0.len() + i] == b0[i]);
                        assert(mesh_matches(subs[i], &b0[i]));
                    }
                }
                Ok(())
            },
        }
    }

    /// Loads a model from the bytes of a 3D-model file: parses them into
    /// raw sub-meshes and builds one mesh per sub-mesh, with an empty
    /// texture cache. Fails exactly when the bytes cannot be parsed or a
    /// sub-mesh is not loadable, with the first such error.
    pub fn new(obj_bytes: &Vec<u8>) -> (r: Result<FGModel, LoadError>)
        ensures
            parsed_obj(obj_bytes@) is None ==> r is Err && r->Err_0 == LoadError::ObjParse,
            parsed_obj(obj_bytes@) is Some ==> ({
                let subs = parsed_obj(obj_bytes@)->Some_0;
                &&& (r is Ok <==> submeshes_error(subs) is None)
                &&& (r is Err ==> Some(r->Err_0) == submeshes_error(subs))
                &&& (r is Ok ==> {
                    &&& r->Ok_0.meshes@.len() == subs.len()
                    &&& forall|i: int|
                        0 <= i < subs.len() ==> mesh_matches(subs[i], &r->Ok_0.meshes@[i])
                    &&& r->Ok_0.textures_loaded@ == Seq::<FGTexture>::empty()
                })
            }),
    {
        match parse_obj_submeshes(obj_bytes) {
            Err(e) => Err(e),
            Ok(subs) => {
                let mut model = FGModel::default();
                match model.load_model(&subs) {
                    Ok(()) => Ok(model),
                    Err(e) => Err(e),
                }
            },
        }
    }

    /// The first cached texture that was loaded from `path`, if any; the
    /// cache is not changed.
    pub fn find_loaded_texture(&self, path: &String) -> (r: Option<FGTexture>)
        ensures
            r == cache_lookup(self.textures_loaded@, path@),
    {
        let n = self.textures_loaded.len();
        let mut i: usize = 0;
        while i < n
            invariant
                i <= n,
                n == self.textures_loaded@.len(),
                forall|j: int| 0 <= j < i ==> self.textures_loaded@[j].path@ != path@,
            decreases n - i,
        {
            let t = &self.textures_loaded[i];
            if t.path == *path {
                proof {
                    lemma_cache_lookup_skip(self.textures_loaded@, path@, i as int);
                    assert(self.textures_loaded@.skip(i as int)[0] == self.textures_loaded@[
                        i as int
                    ]);
                }
                return Some(t.duplicate());
            }
            i = i + 1;
        }
        proof {
            lemma_cache_lookup_skip(self.textures_loaded@, path@, n as int);
            assert(self.textures_loaded@.skip(n as int) =~= Seq::<FGTexture>::empty());
        }
        None
    }

    /// Resolves one material texture through this model's cache: when
    /// `path` was loaded before, the cached entry is returned and nothing
    /// changes — the decode/upload work behind `fresh_id` is needed at
    /// most once per path. Only on a cache miss is a new entry with the
    /// freshly uploaded handle `fresh_id` recorded and returned. Callers
    /// check [`Self::find_loaded_texture`] first and upload only on a
    /// miss.
    pub fn load_material_texture(&mut self, path: &String, kind: TextureKind, fresh_id: u32) -> (t: FGTexture)
        ensures
            cache_lookup(old(self).textures_loaded@, path@) is Some ==> {
                &&& t == cache_lookup(old(self).textures_loaded@, path@)->Some_0
                &&& *final(self) == *old(self)
            },
            cache_lookup(old(self).textures_loaded@, path@) is None ==> {
                &&& t.id == fresh_id
                &&& t.kind == kind
                &&& t.path@ == path@
                &&& final(self).textures_loaded@ == old(self).textures_loaded@.push(t)
                &&& final(self).meshes@ == old(self).meshes@
                &&& final(self).directory@ == old(self).directory@
            },
    {
        let cached = self.find_loaded_texture(path);
        match cached {
            Some(t) => t,
            None => {
                let t = FGTexture { id: fresh_id, kind, path: path.clone() };
                self.textures_loaded.push(t.duplicate());
                t
            },
        }
    }
}

#[verifier::external_type_specification]
#[verifier::external_body]
pub struct ExTobjModel(tobj::Model);

/// Relies on tobj::Model's public fields alone: moves the name, index
/// array and material reference over, and re-types each flattened scalar
/// array component as its raw 32-bit pattern, one for one.
#[verifier::external_body]
fn submesh_of(m: tobj::Model) -> (r: SubMeshData)
{
    SubMeshData {
        name: m.name,
        positions: m.mesh.positions.iter().map(|c| c.to_bits()).collect(),
        normals: m.mesh.normals.iter().map(|c| c.to_bits()).collect(),
        texcoords: m.mesh.texcoords.iter().map(|c| c.to_bits()).collect(),
        indices: m.mesh.indices,
        material_id: m.mesh.material_id,
    }
}

/// Relies on tobj::load_obj_buf (with triangulation and a single index
/// stream, material libraries not resolved): parsing is a pure function
/// of the file bytes; each parsed model yields its flattened position/
/// normal/texcoord arrays (components carried as raw 32-bit patterns),
/// its index array, and its material reference.
#[verifier::external_body]
fn parse_obj_submeshes(bytes: &Vec<u8>) -> (r: Result<Vec<SubMeshData>, LoadError>)
    ensures
        r is Ok <==> parsed_obj(bytes@) is Some,
        r is Ok ==> submesh_views(r->Ok_0@) == parsed_obj(bytes@)->Some_0,
        r is Err ==> r->Err_0 == LoadError::ObjParse,
{
    let opts = tobj::LoadOptions { single_index: true, triangulate: true, ..Default::default() };
    match tobj::load_obj_buf(&mut bytes.as_slice(), &opts, |_| Ok((Vec::new(), Default::default()))) {
        Ok((models, _)) => Ok(models.into_iter().map(submesh_of).collect()),
        Err(_) => Err(LoadError::ObjParse),
    }
}

/// A texture registered for a path not yet in the cache is found by every
/// later lookup of that path: with the cache discipline of
/// [`FGModel::load_material_texture`], the decode/upload work for one
/// path happens at most once per model, and later loads return the
/// identical handle.
pub proof fn lemma_texture_loaded_once(cache: Seq<FGTexture>, t: FGTexture)
    requires
        cache_lookup(cache, t.path@) is None,
    ensures
        cache_lookup(cache.push(t), t.path@) == Some(t),
    decreases cache.len(),
{
    if cache.len() == 0 {
        assert(cache.push(t)[0] == t);
    } else {
        assert(cache.push(t)[0] == cache[0]);
        assert(cache.push(t).drop_first() =~= cache.drop_first().push(t));
        lemma_texture_loaded_once(cache.drop_first(), t);
    }
}

/// Registering a texture for one path never disturbs what the cache
/// returns for any other path.
pub proof fn lemma_cache_other_paths_kept(cache: Seq<FGTexture>, t: FGTexture, path: Seq<char>)
    requires
        path != t.path@,
    ensures
        cache_lookup(cache.push(t), path) == cache_lookup(cache, path),
    decreases cache.len(),
{
    if cache.len() == 0 {
        assert(cache.push(t)[0] == t);
        assert(cache.push(t).drop_first() =~= Seq::<FGTexture>::empty());
        assert(cache_lookup(cache.push(t), path) is None);
    } else {
        assert(cache.push(t)[0] == cache[0]);
        assert(cache.push(t).drop_first() =~= cache.drop_first().push(t));
        lemma_cache_other_paths_kept(cache.drop_first(), t, path);
        if cache[0].path@ == path {
            assert(cache_lookup(cache.push(t), path) == Some(cache[0]));
        } else {
            assert(cache_lookup(cache.push(t), path) == cache_lookup(
                cache.push(t).drop_first(),
                path,
            ));
        }
    }
}

} // verus!
