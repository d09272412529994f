//! Kustomize: overlay settings and how settings of an environment override
//! those of an infrastructure, the `kubectl` command lines that build and
//! apply a kustomization, and how their output is read. Running the
//! commands is the caller's.

use vstd::prelude::*;
use crate::cmdline::{flag_pairs, push_arg, push_flag, push_flag_values, push_opt_flag, push_switch};
use crate::deployment::strategy::DeploymentResult;
use crate::keyed::{clone_text_entries, extend_text, text_entries, text_extend};
use crate::text::{
    clone_opt_string, clone_strings, contains_seq, decimal, opt_view, push_char, push_str,
    seq_views, str_contains, str_eq, str_is_empty, to_owned_string, u64_to_string, chars_of,
};
use super::helm::CommandOutput;

verus! {

/// A kustomization and how it is applied.
#[derive(Debug, Clone)]
pub struct KustomizeConfig {
    pub path: String,
    pub images: Vec<KustomizeImage>,
    pub replicas: Vec<KustomizeReplica>,
    /// Common labels, by distinct name.
    pub labels: Vec<(String, String)>,
    /// Common annotations, by distinct name.
    pub annotations: Vec<(String, String)>,
    pub name_prefix: Option<String>,
    pub name_suffix: Option<String>,
    pub namespace: Option<String>,
    pub enable_helm: bool,
    pub load_restrictor: Option<String>,
    pub prune: bool,
    pub prune_whitelist: Vec<String>,
}

/// An image override of a kustomization.
#[derive(Debug, Clone)]
pub struct KustomizeImage {
    pub name: String,
    pub new_name: Option<String>,
    pub new_tag: Option<String>,
    pub digest: Option<String>,
}

/// A replica count override of a kustomization.
#[derive(Debug, Clone)]
pub struct KustomizeReplica {
    pub name: String,
    pub count: u32,
}

/// An image override, with its texts as characters.
pub struct ImageView {
    pub name: Seq<char>,
    pub new_name: Option<Seq<char>>,
    pub new_tag: Option<Seq<char>>,
    pub digest: Option<Seq<char>>,
}

impl View for KustomizeImage {
    type V = ImageView;

    open spec fn view(&self) -> ImageView {
        ImageView {
            name: self.name@,
            new_name: opt_view(self.new_name),
            new_tag: opt_view(self.new_tag),
            digest: opt_view(self.digest),
        }
    }
}

/// The image overrides, as characters.
pub open spec fn image_views(images: Seq<KustomizeImage>) -> Seq<ImageView> {
    images.map_values(|i: KustomizeImage| i@)
}

/// The replica overrides, as (name, count).
pub open spec fn replica_views(replicas: Seq<KustomizeReplica>) -> Seq<(Seq<char>, u32)> {
    replicas.map_values(|r: KustomizeReplica| (r.name@, r.count))
}

/// `o` applied to an existing image: each part `o` sets wins.
pub open spec fn overlay_image(old: ImageView, o: ImageView) -> ImageView {
    ImageView {
        name: old.name,
        new_name: if o.new_name is Some { o.new_name } else { old.new_name },
        new_tag: if o.new_tag is Some { o.new_tag } else { old.new_tag },
        digest: if o.digest is Some { o.digest } else { old.digest },
    }
}

/// Applies one image override: to the first image of the same name, or
/// appended when there is none.
pub open spec fn with_image(images: Seq<ImageView>, o: ImageView) -> Seq<ImageView> {
    if exists|i: int| 0 <= i < images.len() && images[i].name == o.name {
        let i = choose|i: int| 0 <= i < images.len() && images[i].name == o.name
            && forall|j: int| 0 <= j < i ==> images[j].name != o.name;
        images.update(i, overlay_image(images[i], o))
    } else {
        images.push(o)
    }
}

/// Applies the image overrides in order.
pub open spec fn with_images(images: Seq<ImageView>, over: Seq<ImageView>) -> Seq<ImageView>
    decreases over.len(),
{
    if over.len() == 0 {
        images
    } else {
        with_image(with_images(images, over.drop_last()), over.last())
    }
}

/// Applies one replica override: to the first replica of the same name,
/// or appended when there is none.
pub open spec fn with_replica(reps: Seq<(Seq<char>, u32)>, o: (Seq<char>, u32)) -> Seq<(Seq<char>, u32)> {
    if exists|i: int| 0 <= i < reps.len() && reps[i].0 == o.0 {
        let i = choose|i: int| 0 <= i < reps.len() && reps[i].0 == o.0
            && forall|j: int| 0 <= j < i ==> reps[j].0 != o.0;
        reps.update(i, (reps[i].0, o.1))
    } else {
        reps.push(o)
    }
}

/// Applies the replica overrides in order.
pub open spec fn with_replicas(reps: Seq<(Seq<char>, u32)>, over: Seq<(Seq<char>, u32)>) -> Seq<(Seq<char>, u32)>
    decreases over.len(),
{
    if over.len() == 0 {
        reps
    } else {
        with_replica(with_replicas(reps, over.drop_last()), over.last())
    }
}

/// The option of the overrides when it is set, else the base's.
pub open spec fn prefer(over: Option<String>, base: Option<String>) -> Option<Seq<char>> {
    if over is Some { opt_view(over) } else { opt_view(base) }
}

/// `m` is `base` with `over` applied.
pub open spec fn kustomize_merged(base: KustomizeConfig, over: KustomizeConfig, m: KustomizeConfig) -> bool {
    &&& m.path@ == (if over.path@.len() == 0 { base.path@ } else { over.path@ })
    &&& image_views(m.images@) == with_images(image_views(base.images@), image_views(over.images@))
    &&& replica_views(m.replicas@) == with_replicas(replica_views(base.replicas@), replica_views(over.replicas@))
    &&& text_entries(m.labels@) == text_extend(text_entries(base.labels@), text_entries(over.labels@))
    &&& text_entries(m.annotations@) == text_extend(text_entries(base.annotations@), text_entries(over.annotations@))
    &&& opt_view(m.name_prefix) == prefer(over.name_prefix, base.name_prefix)
    &&& opt_view(m.name_suffix) == prefer(over.name_suffix, base.name_suffix)
    &&& opt_view(m.namespace) == prefer(over.namespace, base.namespace)
    &&& m.enable_helm == (over.enable_helm || base.enable_helm)
    &&& opt_view(m.load_restrictor) == prefer(over.load_restrictor, base.load_restrictor)
    &&& m.prune == (over.prune || base.prune)
    &&& seq_views(m.prune_whitelist@) == seq_views(base.prune_whitelist@) + seq_views(over.prune_whitelist@)
}

fn clone_image(i: &KustomizeImage) -> (r: KustomizeImage)
    ensures
        r@ == i@,
{
    KustomizeImage {
        name: i.name.clone(),
        new_name: clone_opt_string(&i.new_name),
        new_tag: clone_opt_string(&i.new_tag),
        digest: clone_opt_string(&i.digest),
    }
}

fn clone_images(v: &Vec<KustomizeImage>) -> (r: Vec<KustomizeImage>)
    ensures
        image_views(r@) == image_views(v@),
{
    let mut r: Vec<KustomizeImage> = Vec::new();
    let mut i: usize = 0;
    while i < v.len()
        invariant
            i <= v@.len(),
            r@.len() == i,
            forall|k: int| 0 <= k < i ==> #[trigger] r@[k]@ == v@[k]@,
        decreases v.len() - i,
    {
        r.push(clone_image(&v[i]));
        i = i + 1;
    }
    assert(image_views(r@) =~= image_views(v@));
    r
}

fn clone_replicas(v: &Vec<KustomizeReplica>) -> (r: Vec<KustomizeReplica>)
    ensures
        replica_views(r@) == replica_views(v@),
{
    let mut r: Vec<KustomizeReplica> = Vec::new();
    let mut i: usize = 0;
    while i < v.len()
        invariant
            i <= v@.len(),
            r@.len() == i,
            forall|k: int| 0 <= k < i ==> #[trigger] r@[k].name@ == v@[k].name@ && r@[k].count == v@[k].count,
        decreases v.len() - i,
    {
        r.push(KustomizeReplica { name: v[i].name.clone(), count: v[i].count });
        i = i + 1;
    }
    assert(replica_views(r@) =~= replica_views(v@));
    r
}

pub(crate) fn apply_image(images: &mut Vec<KustomizeImage>, o: &KustomizeImage)
    ensures
        image_views(final(images)@) == with_image(image_views(old(images)@), o@),
{
    let ghost before = image_views(images@);
    let mut i: usize = 0;
    while i < images.len()
        invariant
            i <= images@.len(),
            image_views(images@) == before,
            images@ == old(images)@,
            before == image_views(old(images)@),
            forall|j: int| 0 <= j < i ==> images@[j].name@ != o.name@,
        decreases images.len() - i,
    {
        if images[i].name == o.name {
            proof {
                assert(before[i as int].name == o@.name);
                assert forall|j: int| 0 <= j < i implies before[j].name != o@.name by {
                    assert(before[j] == images@[j]@);
                }
                assert(0 <= i < before.len() && before[i as int].name == o@.name
                    && forall|j: int| 0 <= j < i ==> before[j].name != o@.name);
                let w = choose|w: int| 0 <= w < before.len() && before[w].name == o@.name
                    && forall|j: int| 0 <= j < w ==> before[j].name != o@.name;
                if w < i { assert(images@[w].name@ != o.name@); }
                if w > i { assert(before[i as int].name == o@.name); }
                assert(w == i as int);
            }
            let old_img = clone_image(&images[i]);
            let merged = KustomizeImage {
                name: old_img.name,
                new_name: if o.new_name.is_some() { clone_opt_string(&o.new_name) } else { old_img.new_name },
                new_tag: if o.new_tag.is_some() { clone_opt_string(&o.new_tag) } else { old_img.new_tag },
                digest: if o.digest.is_some() { clone_opt_string(&o.digest) } else { old_img.digest },
            };
            images.set(i, merged);
            assert(image_views(images@) =~= before.update(i as int, overlay_image(before[i as int], o@)));
            return;
        }
        i = i + 1;
    }
    proof {
        assert forall|j: int| 0 <= j < before.len() implies before[j].name != o@.name by {
            assert(images@[j].name@ != o.name@);
        }
    }
    images.push(clone_image(o));
    assert(image_views(images@) =~= before.push(o@));
}

fn apply_replica(reps: &mut Vec<KustomizeReplica>, o: &KustomizeReplica)
    ensures
        replica_views(final(reps)@) == with_replica(replica_views(old(reps)@), (o.name@, o.count)),
{
    let ghost before = replica_views(reps@);
    let mut i: usize = 0;
    while i < reps.len()
        invariant
            i <= reps@.len(),
            replica_views(reps@) == before,
            reps@ == old(reps)@,
            before == replica_views(old(reps)@),
            forall|j: int| 0 <= j < i ==> reps@[j].name@ != o.name@,
        decreases reps.len() - i,
    {
        if reps[i].name == o.name {
            proof {
                assert(before[i as int].0 == o.name@);
                assert forall|j: int| 0 <= j < i implies before[j].0 != o.name@ by {
                    assert(before[j] == (reps@[j].name@, reps@[j].count));
                }
                assert(0 <= i < before.len() && before[i as int].0 == o.name@
                    && forall|j: int| 0 <= j < i ==> before[j].0 != o.name@);
                let w = choose|w: int| 0 <= w < before.len() && before[w].0 == o.name@
                    && forall|j: int| 0 <= j < w ==> before[j].0 != o.name@;
                if w < i { assert(reps@[w].name@ != o.name@); }
                if w > i { assert(before[i as int].0 == o.name@); }
                assert(w == i as int);
            }
            let name = reps[i].name.clone();
            reps.set(i, KustomizeReplica { name, count: o.count });
            assert(replica_views(reps@) =~= before.update(i as int, (before[i as int].0, o.count)));
            return;
        }
        i = i + 1;
    }
    proof {
        assert forall|j: int| 0 <= j < before.len() implies before[j].0 != o.name@ by {
            assert(reps@[j].name@ != o.name@);
        }
    }
    reps.push(KustomizeReplica { name: o.name.clone(), count: o.count });
    assert(replica_views(reps@) =~= before.push((o.name@, o.count)));
}

fn prefer_opt(over: &Option<String>, base: &Option<String>) -> (r: Option<String>)
    ensures
        opt_view(r) == prefer(*over, *base),
{
    if over.is_some() { clone_opt_string(over) } else { clone_opt_string(base) }
}

impl KustomizeConfig {
    /// Applies environment overrides to infrastructure settings.
    pub fn merge(&self, overrides: &KustomizeConfig) -> (r: KustomizeConfig)
        ensures
            kustomize_merged(*self, *overrides, r),
    {
        let mut images = clone_images(&self.images);
        let ghost base_images = image_views(images@);
        let mut i: usize = 0;
        while i < overrides.images.len()
            invariant
                i <= overrides.images@.len(),
                image_views(images@) == with_images(base_images, image_views(overrides.images@).take(i as int)),
            decreases overrides.images.len() - i,
        {
            apply_image(&mut images, &overrides.images[i]);
            proof {
                let next = image_views(overrides.images@).take(i + 1);
                assert(next.drop_last() =~= image_views(overrides.images@).take(i as int));
                assert(next.last() == overrides.images@[i as int]@);
            }
            i = i + 1;
        }
        assert(image_views(overrides.images@).take(overrides.images@.len() as int) =~= image_views(overrides.images@));

        let mut replicas = clone_replicas(&self.replicas);
        let ghost base_reps = replica_views(replicas@);
        let mut k: usize = 0;
        while k < overrides.replicas.len()
            invariant
                k <= overrides.replicas@.len(),
                replica_views(replicas@) == with_replicas(base_reps, replica_views(overrides.replicas@).take(k as int)),
            decreases overrides.replicas.len() - k,
        {
            apply_replica(&mut replicas, &overrides.replicas[k]);
            proof {
                let next = replica_views(overrides.replicas@).take(k + 1);
                assert(next.drop_last() =~= replica_views(overrides.replicas@).take(k as int));
                assert(next.last() == (overrides.replicas@[k as int].name@, overrides.replicas@[k as int].count));
            }
            k = k + 1;
        }
        assert(replica_views(overrides.replicas@).take(overrides.replicas@.len() as int) =~= replica_views(overrides.replicas@));

        let mut labels = clone_text_entries(&self.labels);
        extend_text(&mut labels, &overrides.labels);
        let mut annotations = clone_text_entries(&self.annotations);
        extend_text(&mut annotations, &overrides.annotations);

        let mut prune_whitelist = clone_strings(&self.prune_whitelist);
        let ghost a = seq_views(prune_whitelist@);
        let mut j: usize = 0;
        while j < overrides.prune_whitelist.len()
            invariant
                j <= overrides.prune_whitelist@.len(),
                seq_views(prune_whitelist@) == a + seq_views(overrides.prune_whitelist@).take(j as int),
            decreases overrides.prune_whitelist.len() - j,
        {
            let ghost prev = prune_whitelist@;
            prune_whitelist.push(overrides.prune_whitelist[j].clone());
            assert(seq_views(prune_whitelist@) =~= seq_views(prev).push(overrides.prune_whitelist@[j as int]@));
            assert(seq_views(overrides.prune_whitelist@).take(j + 1)
                =~= seq_views(overrides.prune_whitelist@).take(j as int).push(overrides.prune_whitelist@[j as int]@));
            j = j + 1;
        }
        assert(seq_views(overrides.prune_whitelist@).take(overrides.prune_whitelist@.len() as int)
            =~= seq_views(overrides.prune_whitelist@));

        KustomizeConfig {
            path: if str_is_empty(overrides.path.as_str()) { self.path.clone() } else { overrides.path.clone() },
            images,
            replicas,
            labels,
            annotations,
            name_prefix: prefer_opt(&overrides.name_prefix, &self.name_prefix),
            name_suffix: prefer_opt(&overrides.name_suffix, &self.name_suffix),
            namespace: prefer_opt(&overrides.namespace, &self.namespace),
            enable_helm: overrides.enable_helm || self.enable_helm,
            load_restrictor: prefer_opt(&overrides.load_restrictor, &self.load_restrictor),
            prune: overrides.prune || self.prune,
            prune_whitelist,
        }
    }
}

/// Some image is named `name`, and the first one has `tag`.
pub open spec fn first_image_tag(images: Seq<ImageView>, name: Seq<char>, tag: Option<Seq<char>>) -> bool {
    exists|i: int| 0 <= i < images.len() && images[i].name == name && images[i].new_tag == tag
        && forall|j: int| 0 <= j < i ==> images[j].name != name
}

/// After applying an image override that sets a tag, the first image of
/// that name carries the tag; images of other names are untouched.
pub proof fn lemma_image_override_tag(images: Seq<ImageView>, o: ImageView, other: Seq<char>)
    requires
        o.new_tag is Some,
    ensures
        first_image_tag(with_image(images, o), o.name, o.new_tag),
        other != o.name ==> forall|i: int| 0 <= i < images.len() && images[i].name == other
            ==> with_image(images, o)[i] == images[i],
{
    let r = with_image(images, o);
    if exists|i: int| 0 <= i < images.len() && images[i].name == o.name {
        lemma_first_image(images, o.name);
        let i = choose|i: int| 0 <= i < images.len() && images[i].name == o.name
            && forall|j: int| 0 <= j < i ==> images[j].name != o.name;
        assert(r[i].name == o.name && r[i].new_tag == o.new_tag);
        assert forall|j: int| 0 <= j < i implies r[j].name != o.name by {
            assert(r[j] == images[j]);
        }
    } else {
        let n = images.len() as int;
        assert(r[n] == o);
        assert forall|j: int| 0 <= j < n implies r[j].name != o.name by {
            assert(r[j] == images[j]);
        }
    }
}

proof fn lemma_first_image(images: Seq<ImageView>, name: Seq<char>)
    requires
        exists|i: int| 0 <= i < images.len() && images[i].name == name,
    ensures
        exists|i: int| 0 <= i < images.len() && images[i].name == name
            && forall|j: int| 0 <= j < i ==> images[j].name != name,
    decreases images.len(),
{
    if images[0].name != name {
        let rest = images.drop_first();
        let w = choose|i: int| 0 <= i < images.len() && images[i].name == name;
        assert(rest[w - 1] == images[w]);
        lemma_first_image(rest, name);
        let k = choose|i: int| 0 <= i < rest.len() && rest[i].name == name
            && forall|j: int| 0 <= j < i ==> rest[j].name != name;
        assert(images[k + 1] == rest[k]);
        assert forall|j: int| 0 <= j < k + 1 implies images[j].name != name by {
            if j > 0 { assert(images[j] == rest[j - 1]); }
        }
    } else {
        assert(0 < images.len() && images[0].name == name);
    }
}

/// Merging overrides with no images, replicas, labels, annotations or
/// whitelist entries keeps those of the base as they are.
pub proof fn lemma_kustomize_merge_keeps_lists(base: KustomizeConfig, over: KustomizeConfig, m: KustomizeConfig)
    requires
        kustomize_merged(base, over, m),
        over.images@.len() == 0 && over.replicas@.len() == 0 && over.labels@.len() == 0,
        over.annotations@.len() == 0 && over.prune_whitelist@.len() == 0,
    ensures
        image_views(m.images@) == image_views(base.images@),
        replica_views(m.replicas@) == replica_views(base.replicas@),
        text_entries(m.labels@) == text_entries(base.labels@),
        text_entries(m.annotations@) == text_entries(base.annotations@),
        seq_views(m.prune_whitelist@) == seq_views(base.prune_whitelist@),
{
    assert(image_views(over.images@) =~= Seq::<ImageView>::empty());
    assert(replica_views(over.replicas@) =~= Seq::<(Seq<char>, u32)>::empty());
    assert(text_entries(over.labels@) =~= Seq::<(Seq<char>, Seq<char>)>::empty());
    assert(text_entries(over.annotations@) =~= Seq::<(Seq<char>, Seq<char>)>::empty());
    assert(seq_views(base.prune_whitelist@) + seq_views(over.prune_whitelist@) =~= seq_views(base.prune_whitelist@));
}

/// The `--set-image` value of an image override: the name, then
/// `=new_name`, `:tag` and `@digest` for the parts that are set.
pub open spec fn image_spec(i: ImageView) -> Seq<char> {
    i.name
        + (match i.new_name { Some(n) => "="@ + n, None => seq![] })
        + (match i.new_tag { Some(t) => ":"@ + t, None => seq![] })
        + (match i.digest { Some(d) => "@"@ + d, None => seq![] })
}

/// `--set-image spec` for each image override, in order.
pub open spec fn set_image_args(images: Seq<ImageView>) -> Seq<Seq<char>>
    decreases images.len(),
{
    if images.len() == 0 {
        seq![]
    } else {
        set_image_args(images.drop_last()) + seq!["--set-image"@, image_spec(images.last())]
    }
}

/// The lines of a text: the pieces between newlines.
pub open spec fn line_pieces(s: Seq<char>) -> Seq<Seq<char>>
    decreases s.len(),
{
    if s.len() == 0 {
        seq![seq![]]
    } else {
        let p = line_pieces(s.drop_last());
        if s.last() == '\n' {
            p.push(seq![])
        } else {
            p.update(p.len() - 1, p.last().push(s.last()))
        }
    }
}

/// A line of `kubectl apply` output that reports a resource.
pub open spec fn reports_resource(line: Seq<char>) -> bool {
    contains_seq(line, "created"@) || contains_seq(line, "configured"@) || contains_seq(line, "unchanged"@)
}

/// The number of lines that report a resource.
pub open spec fn resource_lines(lines: Seq<Seq<char>>) -> nat
    decreases lines.len(),
{
    if lines.len() == 0 {
        0
    } else {
        resource_lines(lines.drop_last()) + (if reports_resource(lines.last()) { 1nat } else { 0nat })
    }
}

proof fn lemma_line_pieces_nonempty(s: Seq<char>)
    ensures
        line_pieces(s).len() >= 1,
    decreases s.len(),
{
    if s.len() > 0 {
        lemma_line_pieces_nonempty(s.drop_last());
    }
}

/// What a Kustomize operation reports when it fails.
#[derive(Debug, Clone)]
pub enum KustomizeError {
    NotInstalled,
    BuildFailed(String),
    ApplyFailed(String),
    DeleteFailed(String),
}

/// The message of a Kustomize error.
pub open spec fn kustomize_error_text(e: KustomizeError) -> Seq<char> {
    match e {
        KustomizeError::NotInstalled =>
            "Kustomize is not installed. It's built into kubectl (v1.14+) or install standalone: https://kubectl.docs.kubernetes.io/installation/kustomize/"@,
        KustomizeError::BuildFailed(s) => "Kustomize build failed: "@ + s@,
        KustomizeError::ApplyFailed(s) => "Kubectl apply failed: "@ + s@,
        KustomizeError::DeleteFailed(s) => "Kubectl delete failed: "@ + s@,
    }
}

impl KustomizeError {
    pub fn to_string(&self) -> (r: String)
        ensures
            r@ == kustomize_error_text(*self),
    {
        match self {
            KustomizeError::NotInstalled => to_owned_string(
                "Kustomize is not installed. It's built into kubectl (v1.14+) or install standalone: https://kubectl.docs.kubernetes.io/installation/kustomize/",
            ),
            KustomizeError::BuildFailed(s) => {
                let mut m = to_owned_string("Kustomize build failed: ");
                push_str(&mut m, s.as_str());
                m
            },
            KustomizeError::ApplyFailed(s) => {
                let mut m = to_owned_string("Kubectl apply failed: ");
                push_str(&mut m, s.as_str());
                m
            },
            KustomizeError::DeleteFailed(s) => {
                let mut m = to_owned_string("Kubectl delete failed: ");
                push_str(&mut m, s.as_str());
                m
            },
        }
    }
}

/// Builds and applies kustomizations in a namespace (and kube context).
/// The command runner is the caller's.
#[derive(Debug, Clone)]
pub struct KustomizeDeployer {
    pub namespace: String,
    pub context: Option<String>,
    pub working_dir: Option<String>,
}

/// The head of `kubectl {verb} -f -` in the kustomization's namespace
/// (else the deployer's), with the context.
pub open spec fn manifest_args_head(d: KustomizeDeployer, c: KustomizeConfig, verb: Seq<char>) -> Seq<Seq<char>> {
    seq![verb, "-f"@, "-"@, "--namespace"@, (match c.namespace { Some(n) => n@, None => d.namespace@ })]
        + (match d.context { Some(x) => seq!["--context"@, x@], None => seq![] })
}

impl KustomizeDeployer {
    pub fn new(namespace: &str, context: Option<&str>) -> (r: Self)
        ensures
            r.namespace@ == namespace@,
            opt_view(r.context) == (match context { Some(c) => Some(c@), None => None }),
            r.working_dir is None,
    {
        KustomizeDeployer {
            namespace: to_owned_string(namespace),
            context: match context {
                Some(c) => Some(to_owned_string(c)),
                None => None,
            },
            working_dir: None,
        }
    }

    pub fn with_working_dir(self, dir: String) -> (r: Self)
        ensures
            r.working_dir == Some(dir),
            r.namespace == self.namespace && r.context == self.context,
    {
        KustomizeDeployer { working_dir: Some(dir), ..self }
    }

    /// `kubectl kustomize --help`, which tells whether kubectl has Kustomize.
    pub fn kubectl_check_args() -> (r: Vec<String>)
        ensures
            seq_views(r@) == seq!["kustomize"@, "--help"@],
    {
        let mut v: Vec<String> = Vec::new();
        push_arg(&mut v, "kustomize");
        push_arg(&mut v, "--help");
        assert(seq_views(v@) =~= seq!["kustomize"@, "--help"@]);
        v
    }

    /// `kustomize version`, which tells whether Kustomize is installed on its own.
    pub fn standalone_check_args() -> (r: Vec<String>)
        ensures
            seq_views(r@) == seq!["version"@],
    {
        let mut v: Vec<String> = Vec::new();
        push_arg(&mut v, "version");
        assert(seq_views(v@) =~= seq!["version"@]);
        v
    }

    /// Whether Kustomize is available: through kubectl, else on its own
    /// (the standalone check runs only when the kubectl one failed).
    pub fn check_installed(kubectl_ok: bool, standalone_ok: bool) -> (r: Result<(), KustomizeError>)
        ensures
            (kubectl_ok || standalone_ok) ==> r is Ok,
            !(kubectl_ok || standalone_ok) ==> r matches Err(KustomizeError::NotInstalled),
    {
        if kubectl_ok || standalone_ok { Ok(()) } else { Err(KustomizeError::NotInstalled) }
    }

    /// `kubectl kustomize {path}` with Helm enabled and the load restrictor
    /// when set.
    pub fn build_args(config: &KustomizeConfig) -> (r: Vec<String>)
        ensures
            seq_views(r@) == seq!["kustomize"@, config.path@]
                + (if config.enable_helm { seq!["--enable-helm"@] } else { seq![] })
                + (match config.load_restrictor { Some(l) => seq!["--load-restrictor"@, l@], None => seq![] }),
    {
        let mut v: Vec<String> = Vec::new();
        push_arg(&mut v, "kustomize");
        push_arg(&mut v, config.path.as_str());
        assert(seq_views(v@) =~= seq!["kustomize"@, config.path@]);
        push_switch(&mut v, "--enable-helm", config.enable_helm);
        push_opt_flag(&mut v, "--load-restrictor", &config.load_restrictor);
        v
    }

    /// How the build's output is read: the manifest on success.
    pub fn build_result(output: &CommandOutput) -> (r: Result<String, KustomizeError>)
        ensures
            output.success ==> (r matches Ok(s) && s@ == output.stdout@),
            !output.success ==> (r matches Err(KustomizeError::BuildFailed(s)) && s@ == output.stderr@),
    {
        if output.success {
            Ok(output.stdout.clone())
        } else {
            Err(KustomizeError::BuildFailed(output.stderr.clone()))
        }
    }

    /// The `--set-image` arguments of the image overrides.
    pub fn build_kubectl_args(&self, config: &KustomizeConfig) -> (r: Vec<String>)
        ensures
            seq_views(r@) == set_image_args(image_views(config.images@)),
    {
        let mut args: Vec<String> = Vec::new();
        let mut i: usize = 0;
        while i < config.images.len()
            invariant
                i <= config.images@.len(),
                seq_views(args@) == set_image_args(image_views(config.images@).take(i as int)),
            decreases config.images.len() - i,
        {
            let img = &config.images[i];
            let mut spec = img.name.clone();
            if let Some(n) = &img.new_name {
                push_str(&mut spec, "=");
                push_str(&mut spec, n.as_str());
            }
            if let Some(t) = &img.new_tag {
                push_str(&mut spec, ":");
                push_str(&mut spec, t.as_str());
            }
            if let Some(d) = &img.digest {
                push_str(&mut spec, "@");
                push_str(&mut spec, d.as_str());
            }
            assert(spec@ =~= image_spec(img@));
            push_flag(&mut args, "--set-image", spec.as_str());
            proof {
                let next = image_views(config.images@).take(i + 1);
                assert(next.drop_last() =~= image_views(config.images@).take(i as int));
                assert(next.last() == img@);
            }
            i = i + 1;
        }
        assert(image_views(config.images@).take(config.images@.len() as int) =~= image_views(config.images@));
        args
    }

    fn manifest_head(&self, config: &KustomizeConfig, verb: &str) -> (r: Vec<String>)
        ensures
            seq_views(r@) == manifest_args_head(*self, *config, verb@),
    {
        let mut a: Vec<String> = Vec::new();
        push_arg(&mut a, verb);
        push_arg(&mut a, "-f");
        push_arg(&mut a, "-");
        let ns = match &config.namespace {
            Some(n) => n.clone(),
            None => self.namespace.clone(),
        };
        push_flag(&mut a, "--namespace", ns.as_str());
        assert(seq_views(a@) =~= seq![verb@, "-f"@, "-"@, "--namespace"@, (match config.namespace { Some(n) => n@, None => self.namespace@ })]);
        push_opt_flag(&mut a, "--context", &self.context);
        a
    }

    /// The `kubectl apply -f -` arguments of a kustomization: namespace,
    /// context, image overrides, pruning, and a client-side YAML dry run.
    pub fn apply_args(&self, config: &KustomizeConfig, dry_run: bool) -> (r: Vec<String>)
        ensures
            seq_views(r@) == manifest_args_head(*self, *config, "apply"@)
                + set_image_args(image_views(config.images@))
                + (if config.prune {
                    seq!["--prune"@] + flag_pairs("--prune-whitelist"@, seq_views(config.prune_whitelist@))
                } else {
                    seq![]
                })
                + (if dry_run { seq!["--dry-run"@, "client"@, "-o"@, "yaml"@] } else { seq![] }),
    {
        let mut a = self.manifest_head(config, "apply");
        let images = self.build_kubectl_args(config);
        let ghost h = seq_views(a@);
        let mut i: usize = 0;
        while i < images.len()
            invariant
                i <= images@.len(),
                seq_views(a@) == h + seq_views(images@).take(i as int),
            decreases images.len() - i,
        {
            push_arg(&mut a, images[i].as_str());
            assert(seq_views(images@).take(i + 1) =~= seq_views(images@).take(i as int).push(images@[i as int]@));
            i = i + 1;
        }
        assert(seq_views(images@).take(images@.len() as int) =~= seq_views(images@));
        let ghost mid = seq_views(a@);
        if config.prune {
            push_arg(&mut a, "--prune");
            push_flag_values(&mut a, "--prune-whitelist", &config.prune_whitelist);
            assert(seq_views(a@) =~= mid + (seq!["--prune"@] + flag_pairs("--prune-whitelist"@, seq_views(config.prune_whitelist@))));
        } else {
            assert(seq_views(a@) =~= mid + Seq::<Seq<char>>::empty());
        }
        let ghost mid2 = seq_views(a@);
        if dry_run {
            push_arg(&mut a, "--dry-run");
            push_arg(&mut a, "client");
            push_arg(&mut a, "-o");
            push_arg(&mut a, "yaml");
            assert(seq_views(a@) =~= mid2 + seq!["--dry-run"@, "client"@, "-o"@, "yaml"@]);
        } else {
            assert(seq_views(a@) =~= mid2 + Seq::<Seq<char>>::empty());
        }
        a
    }

    /// The `kubectl delete -f -` arguments of a kustomization.
    pub fn delete_args(&self, config: &KustomizeConfig, dry_run: bool) -> (r: Vec<String>)
        ensures
            seq_views(r@) == manifest_args_head(*self, *config, "delete"@)
                + (if dry_run { seq!["--dry-run"@] } else { seq![] }),
    {
        let mut a = self.manifest_head(config, "delete");
        push_switch(&mut a, "--dry-run", dry_run);
        a
    }

    /// The `kubectl diff -f -` arguments of a kustomization.
    pub fn diff_args(&self, config: &KustomizeConfig) -> (r: Vec<String>)
        ensures
            seq_views(r@) == manifest_args_head(*self, *config, "diff"@),
    {
        self.manifest_head(config, "diff")
    }

    /// The arguments with the first `-` (read from standard input) replaced
    /// by the file the manifest was written to.
    pub fn with_manifest_file(args: &Vec<String>, file: &str) -> (r: Vec<String>)
        ensures
            r@.len() == args@.len(),
            (exists|p: int| 0 <= p < args@.len() && args@[p]@ == "-"@) ==> {
                let p = choose|p: int| 0 <= p < args@.len() && args@[p]@ == "-"@
                    && forall|q: int| 0 <= q < p ==> args@[q]@ != "-"@;
                seq_views(r@) == seq_views(args@).update(p, file@)
            },
            !(exists|p: int| 0 <= p < args@.len() && args@[p]@ == "-"@) ==> seq_views(r@) == seq_views(args@),
    {
        let mut r: Vec<String> = Vec::new();
        let mut replaced = false;
        let mut i: usize = 0;
        let ghost mut at: int = -1;
        while i < args.len()
            invariant
                i <= args@.len(),
                r@.len() == i,
                !replaced ==> at == -1 && forall|q: int| 0 <= q < i ==> args@[q]@ != "-"@,
                replaced ==> 0 <= at < i && args@[at]@ == "-"@ && forall|q: int| 0 <= q < at ==> args@[q]@ != "-"@,
                forall|q: int| 0 <= q < i ==> #[trigger] r@[q]@ == (if q == at { file@ } else { args@[q]@ }),
            decreases args.len() - i,
        {
            if !replaced && str_eq(args[i].as_str(), "-") {
                r.push(to_owned_string(file));
                replaced = true;
                proof { at = i as int; }
            } else {
                r.push(args[i].clone());
            }
            i = i + 1;
        }
        proof {
            if exists|p: int| 0 <= p < args@.len() && args@[p]@ == "-"@ {
                let w = choose|p: int| 0 <= p < args@.len() && args@[p]@ == "-"@;
                assert(replaced);
                let p = choose|p: int| 0 <= p < args@.len() && args@[p]@ == "-"@
                    && forall|q: int| 0 <= q < p ==> args@[q]@ != "-"@;
                if p < at { assert(args@[p]@ != "-"@); }
                if at < p { assert(args@[at]@ != "-"@); }
                assert(seq_views(r@) =~= seq_views(args@).update(p, file@));
            } else {
                assert(!replaced);
                assert(seq_views(r@) =~= seq_views(args@));
            }
        }
        r
    }

    /// The number of output lines that report a resource as created,
    /// configured or unchanged.
    pub fn count_resources(&self, output: &str) -> (r: usize)
        ensures
            r == resource_lines(line_pieces(output@)),
    {
        let v = chars_of(output);
        let mut count: usize = 0;
        let mut line = String::new();
        let mut i: usize = 0;
        proof { lemma_line_pieces_nonempty(output@.take(0)); }
        assert(output@.take(0) =~= Seq::<char>::empty());
        while i < v.len()
            invariant
                v@ == output@,
                i <= v@.len(),
                line_pieces(output@.take(i as int)).len() >= 1,
                line@ == line_pieces(output@.take(i as int)).last(),
                count == resource_lines(line_pieces(output@.take(i as int)).drop_last()),
                count + line@.len() <= i,
            decreases v.len() - i,
        {
            let ghost before = line_pieces(output@.take(i as int));
            proof {
                assert(output@.take(i + 1).drop_last() =~= output@.take(i as int));
                assert(output@.take(i + 1).last() == v@[i as int]);
            }
            if v[i] == '\n' {
                let hit = line_reports_resource(line.as_str());
                if hit {
                    count = count + 1;
                }
                line = String::new();
                proof {
                    let after = line_pieces(output@.take(i + 1));
                    assert(after == before.push(seq![]));
                    assert(after.drop_last() =~= before);
                    assert(before.drop_last() =~= before.drop_last());
                    assert(resource_lines(before) == resource_lines(before.drop_last())
                        + (if reports_resource(before.last()) { 1nat } else { 0nat }));
                }
            } else {
                push_char(&mut line, v[i]);
                proof {
                    let after = line_pieces(output@.take(i + 1));
                    assert(after == before.update(before.len() - 1, before.last().push(v@[i as int])));
                    assert(after.drop_last() =~= before.drop_last());
                }
            }
            i = i + 1;
        }
        assert(output@.take(v@.len() as int) =~= output@);
        let hit = line_reports_resource(line.as_str());
        proof {
            let all = line_pieces(output@);
            assert(resource_lines(all) == resource_lines(all.drop_last())
                + (if reports_resource(all.last()) { 1nat } else { 0nat }));
        }
        if hit { count + 1 } else { count }
    }

    /// The message of an applied kustomization.
    pub fn applied_message(config: &KustomizeConfig, resources: usize) -> (r: String)
        ensures
            r@ == "Applied kustomization from "@ + config.path@ + " ("@ + decimal(resources as nat) + " resources)"@,
    {
        let mut m = to_owned_string("Applied kustomization from ");
        push_str(&mut m, config.path.as_str());
        push_str(&mut m, " (");
        let n = u64_to_string(resources as u64);
        push_str(&mut m, n.as_str());
        push_str(&mut m, " resources)");
        m
    }

    /// The result of `kubectl apply` on a kustomization.
    pub fn apply_result(&self, config: &KustomizeConfig, output: &CommandOutput) -> (r: Result<DeploymentResult, KustomizeError>)
        ensures
            !output.success ==> (r matches Err(KustomizeError::ApplyFailed(s)) && s@ == output.stderr@),
            output.success ==> (r matches Ok(d) && d.success && d.version is None && d.rollback_version is None
                && d.message@ == "Applied kustomization from "@ + config.path@ + " ("@
                    + decimal(resource_lines(line_pieces(output.stdout@))) + " resources)"@),
    {
        if !output.success {
            return Err(KustomizeError::ApplyFailed(output.stderr.clone()));
        }
        let n = self.count_resources(output.stdout.as_str());
        let m = Self::applied_message(config, n);
        Ok(DeploymentResult { success: true, message: m, version: None, rollback_version: None })
    }

    /// The result of `kubectl delete` on a kustomization.
    pub fn delete_result(config: &KustomizeConfig, output: &CommandOutput) -> (r: Result<DeploymentResult, KustomizeError>)
        ensures
            !output.success ==> (r matches Err(KustomizeError::DeleteFailed(s)) && s@ == output.stderr@),
            output.success ==> (r matches Ok(d) && d.success && d.version is None && d.rollback_version is None
                && d.message@ == "Deleted resources from kustomization "@ + config.path@),
    {
        if !output.success {
            return Err(KustomizeError::DeleteFailed(output.stderr.clone()));
        }
        let mut m = to_owned_string("Deleted resources from kustomization ");
        push_str(&mut m, config.path.as_str());
        Ok(DeploymentResult { success: true, message: m, version: None, rollback_version: None })
    }
}

fn line_reports_resource(line: &str) -> (r: bool)
    ensures
        r == reports_resource(line@),
        r ==> line@.len() > 0,
{
    proof {
        reveal_strlit("created");
        reveal_strlit("configured");
        reveal_strlit("unchanged");
        assert("created"@.len() == 7);
        assert("configured"@.len() == 10);
        assert("unchanged"@.len() == 9);
    }
    str_contains(line, "created") || str_contains(line, "configured") || str_contains(line, "unchanged")
}

} // verus!
