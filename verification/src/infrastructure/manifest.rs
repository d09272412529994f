//! Manifest templates: their settings, the built-in variables a template
//! sees, the variables of the rendering context, rendering with Tera, and
//! splitting a rendered manifest into its YAML documents. Reading template
//! files and the process environment is the caller's.

use vstd::prelude::*;
use crate::keyed::{clone_text_entries, extend_text, insert_text, text_entries, text_extend, text_insert};
use crate::text::{
    after_last, decimal, join_seqs, join_strings, opt_view, push_str, seq_views, starts_with_seq,
    str_has_char, str_starts_with, suffix_after_last, to_owned_string, u64_to_string,
};

verus! {

/// Where templates are and what they see besides the built-in variables.
#[derive(Debug, Clone)]
pub struct ManifestTemplateConfig {
    /// Template file, directory or glob pattern.
    pub path: String,
    /// Variables, by distinct name.
    pub variables: Vec<(String, String)>,
    /// Whether process environment variables are visible.
    pub include_env: bool,
    /// Only environment variables with this prefix are visible.
    pub env_prefix: Option<String>,
}

/// Environment variables are visible when the setting is missing.
pub fn default_true() -> (r: bool)
    ensures
        r,
{
    true
}

impl Default for ManifestTemplateConfig {
    fn default() -> (r: Self)
        ensures
            r.path@.len() == 0 && r.variables@.len() == 0 && !r.include_env && r.env_prefix is None,
    {
        ManifestTemplateConfig { path: String::new(), variables: Vec::new(), include_env: false, env_prefix: None }
    }
}

/// The built-in variables of a template.
#[derive(Debug, Clone)]
pub struct BuiltinVariables {
    pub image: Option<String>,
    pub image_tag: Option<String>,
    pub namespace: String,
    pub environment: String,
    pub deployment_name: Option<String>,
}

/// The tag of an image: the part after its last `:` (the whole image when
/// it has none), unless that part contains a `/` (a registry port).
pub open spec fn image_tag_of(image: Seq<char>) -> Option<Seq<char>> {
    if after_last(image, ':').contains('/') { None } else { Some(after_last(image, ':')) }
}

impl BuiltinVariables {
    pub fn new(namespace: &str, environment: &str) -> (r: Self)
        ensures
            r.image is None && r.image_tag is None && r.deployment_name is None,
            r.namespace@ == namespace@ && r.environment@ == environment@,
    {
        BuiltinVariables {
            image: None,
            image_tag: None,
            namespace: to_owned_string(namespace),
            environment: to_owned_string(environment),
            deployment_name: None,
        }
    }

    /// Sets the image, and its tag when the image has one.
    pub fn with_image(self, image: &str) -> (r: Self)
        ensures
            opt_view(r.image) == Some(image@),
            opt_view(r.image_tag) == (match image_tag_of(image@) {
                Some(t) => Some(t),
                None => opt_view(self.image_tag),
            }),
            r.namespace == self.namespace && r.environment == self.environment,
            r.deployment_name == self.deployment_name,
    {
        let tag = suffix_after_last(image, ':');
        let image_tag = if str_has_char(tag.as_str(), '/') { self.image_tag } else { Some(tag) };
        BuiltinVariables { image: Some(to_owned_string(image)), image_tag, ..self }
    }

    pub fn with_deployment_name(self, name: &str) -> (r: Self)
        ensures
            opt_view(r.deployment_name) == Some(name@),
            r.image == self.image && r.image_tag == self.image_tag,
            r.namespace == self.namespace && r.environment == self.environment,
    {
        BuiltinVariables { deployment_name: Some(to_owned_string(name)), ..self }
    }
}

/// A rendered manifest.
#[derive(Debug, Clone)]
pub struct RenderedManifest {
    /// Template or file name.
    pub name: String,
    /// Rendered YAML.
    pub content: String,
}

/// The built-in variables as (name, value) pairs, those that are set.
pub open spec fn builtin_pairs(b: BuiltinVariables) -> Seq<(Seq<char>, Seq<char>)> {
    (match b.image { Some(i) => seq![("IMAGE"@, i@)], None => seq![] })
        + (match b.image_tag { Some(t) => seq![("IMAGE_TAG"@, t@)], None => seq![] })
        + seq![("NAMESPACE"@, b.namespace@), ("ENVIRONMENT"@, b.environment@)]
        + (match b.deployment_name { Some(d) => seq![("DEPLOYMENT_NAME"@, d@)], None => seq![] })
}

/// The process variables a template sees: none unless enabled, then those
/// whose name has the prefix (all when there is no prefix).
pub open spec fn visible_env(vars: Seq<(Seq<char>, Seq<char>)>, enabled: bool, prefix: Option<Seq<char>>) -> Seq<(Seq<char>, Seq<char>)>
    decreases vars.len(),
{
    if !enabled || vars.len() == 0 {
        seq![]
    } else {
        let prev = visible_env(vars.drop_last(), enabled, prefix);
        if (match prefix { Some(p) => starts_with_seq(vars.last().0, p), None => true }) {
            prev.push(vars.last())
        } else {
            prev
        }
    }
}

/// The variables of the rendering context: the built-in ones, then the
/// configured ones, then the visible process variables, each inserted in
/// order (a later one replaces an earlier one of the same name).
pub open spec fn context_of(c: ManifestTemplateConfig, b: BuiltinVariables, process: Seq<(Seq<char>, Seq<char>)>) -> Seq<(Seq<char>, Seq<char>)> {
    text_extend(
        text_extend(text_extend(seq![], builtin_pairs(b)), text_entries(c.variables@)),
        visible_env(process, c.include_env, opt_view(c.env_prefix)),
    )
}

fn push_pair(v: &mut Vec<(String, String)>, k: &str, val: &String)
    ensures
        text_entries(final(v)@) == text_entries(old(v)@).push((k@, val@)),
{
    let ghost before = v@;
    v.push((to_owned_string(k), val.clone()));
    assert(text_entries(v@) =~= text_entries(before).push((k@, val@)));
}

fn builtins_list(b: &BuiltinVariables) -> (r: Vec<(String, String)>)
    ensures
        text_entries(r@) == builtin_pairs(*b),
{
    let mut v: Vec<(String, String)> = Vec::new();
    if let Some(i) = &b.image {
        push_pair(&mut v, "IMAGE", i);
    }
    if let Some(t) = &b.image_tag {
        push_pair(&mut v, "IMAGE_TAG", t);
    }
    push_pair(&mut v, "NAMESPACE", &b.namespace);
    push_pair(&mut v, "ENVIRONMENT", &b.environment);
    if let Some(d) = &b.deployment_name {
        push_pair(&mut v, "DEPLOYMENT_NAME", d);
    }
    assert(text_entries(v@) =~= builtin_pairs(*b));
    v
}

/// The process variables a template sees.
pub fn visible_process_vars(config: &ManifestTemplateConfig, process: &Vec<(String, String)>) -> (r: Vec<(String, String)>)
    ensures
        text_entries(r@) == visible_env(text_entries(process@), config.include_env, opt_view(config.env_prefix)),
{
    let mut r: Vec<(String, String)> = Vec::new();
    if !config.include_env {
        assert(text_entries(r@) =~= Seq::<(Seq<char>, Seq<char>)>::empty());
        return r;
    }
    let mut i: usize = 0;
    assert(text_entries(process@).take(0) =~= Seq::<(Seq<char>, Seq<char>)>::empty());
    assert(text_entries(r@) =~= Seq::<(Seq<char>, Seq<char>)>::empty());
    while i < process.len()
        invariant
            i <= process@.len(),
            config.include_env,
            text_entries(r@) == visible_env(text_entries(process@).take(i as int), config.include_env, opt_view(config.env_prefix)),
        decreases process.len() - i,
    {
        proof {
            let next = text_entries(process@).take(i + 1);
            assert(next.drop_last() =~= text_entries(process@).take(i as int));
            assert(next.last() == (process@[i as int].0@, process@[i as int].1@));
        }
        let keep = match &config.env_prefix {
            Some(p) => str_starts_with(process[i].0.as_str(), p.as_str()),
            None => true,
        };
        if keep {
            let ghost before = r@;
            r.push((process[i].0.clone(), process[i].1.clone()));
            assert(text_entries(r@) =~= text_entries(before).push((process@[i as int].0@, process@[i as int].1@)));
        }
        i = i + 1;
    }
    assert(text_entries(process@).take(process@.len() as int) =~= text_entries(process@));
    r
}

/// The variables of the rendering context, given the process variables.
pub fn build_context(config: &ManifestTemplateConfig, builtins: &BuiltinVariables, process: &Vec<(String, String)>) -> (r: Vec<(String, String)>)
    ensures
        text_entries(r@) == context_of(*config, *builtins, text_entries(process@)),
{
    let mut ctx: Vec<(String, String)> = Vec::new();
    assert(text_entries(ctx@) =~= seq![]);
    let b = builtins_list(builtins);
    extend_text(&mut ctx, &b);
    extend_text(&mut ctx, &config.variables);
    let env = visible_process_vars(config, process);
    extend_text(&mut ctx, &env);
    ctx
}

/// The message of a dry run of templates: their names, comma separated.
pub fn would_apply_message(manifests: &Vec<RenderedManifest>) -> (r: String)
    ensures
        r@ == "Would apply templates: "@ + join_seqs(manifests@.map_values(|m: RenderedManifest| m.name@), ", "@),
{
    let mut names: Vec<String> = Vec::new();
    let mut i: usize = 0;
    while i < manifests.len()
        invariant
            i <= manifests@.len(),
            seq_views(names@) == manifests@.map_values(|m: RenderedManifest| m.name@).take(i as int),
        decreases manifests.len() - i,
    {
        let ghost before = names@;
        names.push(manifests[i].name.clone());
        assert(seq_views(names@) =~= seq_views(before).push(manifests@[i as int].name@));
        assert(manifests@.map_values(|m: RenderedManifest| m.name@).take(i + 1)
            =~= manifests@.map_values(|m: RenderedManifest| m.name@).take(i as int).push(manifests@[i as int].name@));
        i = i + 1;
    }
    assert(manifests@.map_values(|m: RenderedManifest| m.name@).take(manifests@.len() as int)
        =~= manifests@.map_values(|m: RenderedManifest| m.name@));
    let joined = join_strings(&names, ", ");
    let mut m = to_owned_string("Would apply templates: ");
    push_str(&mut m, joined.as_str());
    m
}

/// The message of applied templates.
pub fn applied_message(count: usize) -> (r: String)
    ensures
        r@ == "Applied "@ + decimal(count as nat) + " manifest templates"@,
{
    let mut m = to_owned_string("Applied ");
    let n = u64_to_string(count as u64);
    push_str(&mut m, n.as_str());
    push_str(&mut m, " manifest templates");
    m
}


/// Whether Tera loads a set of raw templates: each parses, and every
/// template another extends or imports macros from is among them.
pub uninterp spec fn tera_loads(templates: Seq<(Seq<char>, Seq<char>)>) -> bool;

/// `Tera::add_raw_templates` on a `Tera::default()`. Trusted: whether the
/// templates load depends on them alone and is named. The error's message
/// is not stated: when several templates are faulty, which one it names
/// follows the order of a hash map.
#[verifier::external_body]
fn tera_load(templates: &Vec<(String, String)>) -> (r: Result<(), String>)
    ensures
        r is Ok == tera_loads(text_entries(templates@)),
{
    let mut tera = tera::Tera::default();
    tera.add_raw_templates(templates.iter().map(|t| (t.0.as_str(), t.1.as_str())))
        .map_err(|e| e.to_string())
}

/// `Tera::render` of the template `name`, the templates loaded into a
/// `Tera::default()` and each context variable inserted as a string.
/// Trusted: rendering fails when no template has that name. Nothing more is
/// stated: a template can read the process environment (`get_env`), so the
/// output does not depend on the arguments alone.
#[verifier::external_body]
fn tera_render(templates: &Vec<(String, String)>, name: &str, context: &Vec<(String, String)>) -> (r: Result<String, String>)
    ensures
        (forall|i: int| 0 <= i < templates@.len() ==> templates@[i].0@ != name@) ==> r is Err,
{
    let mut tera = tera::Tera::default();
    tera.add_raw_templates(templates.iter().map(|t| (t.0.as_str(), t.1.as_str())))
        .map_err(|e| e.to_string())?;
    let mut ctx = tera::Context::new();
    for (key, value) in context {
        ctx.insert(key.as_str(), value);
    }
    tera.render(name, &ctx).map_err(|e| e.to_string())
}

/// Renders manifests from a set of templates, by name.
#[derive(Debug, Clone)]
pub struct ManifestRenderer {
    templates: Vec<(String, String)>,
}

/// The names of a list of named texts.
pub open spec fn template_names_of(t: Seq<(Seq<char>, Seq<char>)>) -> Seq<Seq<char>> {
    t.map_values(|e: (Seq<char>, Seq<char>)| e.0)
}

impl ManifestRenderer {
    /// The templates, by distinct name.
    pub closed spec fn template_entries(&self) -> Seq<(Seq<char>, Seq<char>)> {
        text_entries(self.templates@)
    }

    /// A renderer of the given (name, content) templates: an error when
    /// Tera does not load them; a later template replaces an earlier one of
    /// the same name.
    pub fn from_templates(templates: &Vec<(String, String)>) -> (r: Result<Self, String>)
        ensures
            r is Ok == tera_loads(text_entries(templates@)),
            r matches Ok(m) ==> m.template_entries() == text_extend(seq![], text_entries(templates@)),
    {
        match tera_load(templates) {
            Err(e) => Err(e),
            Ok(()) => {
                let mut t: Vec<(String, String)> = Vec::new();
                assert(text_entries(t@) =~= seq![]);
                extend_text(&mut t, templates);
                Ok(ManifestRenderer { templates: t })
            },
        }
    }

    /// A renderer of one template.
    pub fn from_string(name: &str, content: &str) -> (r: Result<Self, String>)
        ensures
            r is Ok == tera_loads(seq![(name@, content@)]),
            r matches Ok(m) ==> m.template_entries() == seq![(name@, content@)],
    {
        let mut t: Vec<(String, String)> = Vec::new();
        t.push((to_owned_string(name), to_owned_string(content)));
        assert(text_entries(t@) =~= seq![(name@, content@)]);
        let r = Self::from_templates(&t);
        proof {
            let one = seq![(name@, content@)];
            assert(one.drop_last() =~= Seq::<(Seq<char>, Seq<char>)>::empty());
            assert(text_extend(seq![], one.drop_last()) =~= Seq::<(Seq<char>, Seq<char>)>::empty());
            assert(text_insert(seq![], name@, content@) =~= one);
        }
        r
    }

    /// The names of the templates.
    pub fn template_names(&self) -> (r: Vec<String>)
        ensures
            seq_views(r@) == template_names_of(self.template_entries()),
    {
        let mut names: Vec<String> = Vec::new();
        let mut i: usize = 0;
        while i < self.templates.len()
            invariant
                i <= self.templates@.len(),
                seq_views(names@) == template_names_of(text_entries(self.templates@)).take(i as int),
            decreases self.templates.len() - i,
        {
            let ghost before = names@;
            names.push(self.templates[i].0.clone());
            assert(seq_views(names@) =~= seq_views(before).push(self.templates@[i as int].0@));
            assert(template_names_of(text_entries(self.templates@)).take(i + 1)
                =~= template_names_of(text_entries(self.templates@)).take(i as int).push(self.templates@[i as int].0@));
            i = i + 1;
        }
        assert(template_names_of(text_entries(self.templates@)).take(self.templates@.len() as int)
            =~= template_names_of(text_entries(self.templates@)));
        names
    }

    /// Renders the template `name` with the context that the settings, the
    /// built-in variables and the process variables make; an error when no
    /// template has that name or Tera fails.
    pub fn render(
        &self,
        name: &str,
        config: &ManifestTemplateConfig,
        builtins: &BuiltinVariables,
        process: &Vec<(String, String)>,
    ) -> (r: Result<String, String>)
        ensures
            !template_names_of(self.template_entries()).contains(name@) ==> r is Err,
    {
        let context = build_context(config, builtins, process);
        proof {
            if !template_names_of(self.template_entries()).contains(name@) {
                assert forall|i: int| 0 <= i < self.templates@.len() implies self.templates@[i].0@ != name@ by {
                    assert(template_names_of(self.template_entries())[i] == self.templates@[i].0@);
                }
            }
        }
        tera_render(&self.templates, name, &context)
    }

    /// Renders every template, in order; the first failure stops. With no
    /// templates there is nothing to render and the list is empty.
    pub fn render_all(
        &self,
        config: &ManifestTemplateConfig,
        builtins: &BuiltinVariables,
        process: &Vec<(String, String)>,
    ) -> (r: Result<Vec<RenderedManifest>, String>)
        ensures
            self.template_entries().len() == 0 ==> (r matches Ok(v) && v@.len() == 0),
            r matches Ok(v) ==> v@.map_values(|m: RenderedManifest| m.name@) == template_names_of(self.template_entries()),
    {
        let context = build_context(config, builtins, process);
        let mut out: Vec<RenderedManifest> = Vec::new();
        let mut i: usize = 0;
        while i < self.templates.len()
            invariant
                i <= self.templates@.len(),
                out@.map_values(|m: RenderedManifest| m.name@) == template_names_of(text_entries(self.templates@)).take(i as int),
            decreases self.templates.len() - i,
        {
            let content = match tera_render(&self.templates, self.templates[i].0.as_str(), &context) {
                Ok(c) => c,
                Err(e) => return Err(e),
            };
            let ghost before = out@;
            out.push(RenderedManifest { name: self.templates[i].0.clone(), content });
            assert(out@.map_values(|m: RenderedManifest| m.name@)
                =~= before.map_values(|m: RenderedManifest| m.name@).push(self.templates@[i as int].0@));
            assert(template_names_of(text_entries(self.templates@)).take(i + 1)
                =~= template_names_of(text_entries(self.templates@)).take(i as int).push(self.templates@[i as int].0@));
            i = i + 1;
        }
        assert(template_names_of(text_entries(self.templates@)).take(self.templates@.len() as int)
            =~= template_names_of(text_entries(self.templates@)));
        Ok(out)
    }
}

/// The documents of a text of several YAML documents, as serde_yaml reads
/// them: for each, whether it is null and its YAML text; or the message of
/// the error at the first document that does not parse.
pub uninterp spec fn yaml_documents(s: Seq<char>) -> Result<Seq<(bool, Seq<char>)>, Seq<char>>;

/// `serde_yaml::Deserializer::from_str`, each document read as a
/// `serde_yaml::Value` and written back with `serde_yaml::to_string`.
/// Trusted: the result depends on the text alone and is named. Writing a
/// value that was just read does not fail, so the empty text is never used.
#[verifier::external_body]
fn read_yaml_documents(s: &str) -> (r: Result<Vec<(bool, String)>, String>)
    ensures
        match (r, yaml_documents(s@)) {
            (Ok(a), Ok(b)) => a@.map_values(|d: (bool, String)| (d.0, d.1@)) == b,
            (Err(a), Err(b)) => a@ == b,
            _ => false,
        },
{
    let mut docs: Vec<(bool, String)> = Vec::new();
    for doc in serde_yaml::Deserializer::from_str(s) {
        let value: serde_yaml::Value = serde::Deserialize::deserialize(doc).map_err(|e: serde_yaml::Error| e.to_string())?;
        docs.push((value.is_null(), serde_yaml::to_string(&value).unwrap_or_default()));
    }
    Ok(docs)
}

/// The YAML texts of the documents that are not null, in order.
pub open spec fn non_null_documents(docs: Seq<(bool, Seq<char>)>) -> Seq<Seq<char>> {
    docs.filter(|d: (bool, Seq<char>)| !d.0).map_values(|d: (bool, Seq<char>)| d.1)
}

impl RenderedManifest {
    /// The YAML documents of the manifest that are not null, each as YAML
    /// text; an error when one does not parse.
    pub fn parse_documents(&self) -> (r: Result<Vec<String>, String>)
        ensures
            match yaml_documents(self.content@) {
                Ok(d) => r matches Ok(v) && seq_views(v@) == non_null_documents(d),
                Err(m) => r matches Err(e) && e@ == m,
            },
    {
        let docs = match read_yaml_documents(self.content.as_str()) {
            Ok(d) => d,
            Err(e) => return Err(e),
        };
        let ghost all = docs@.map_values(|d: (bool, String)| (d.0, d.1@));
        let mut out: Vec<String> = Vec::new();
        let mut i: usize = 0;
        proof {
            reveal(Seq::filter);
            assert(all.take(0).filter(|d: (bool, Seq<char>)| !d.0) =~= Seq::<(bool, Seq<char>)>::empty());
        }
        while i < docs.len()
            invariant
                all == docs@.map_values(|d: (bool, String)| (d.0, d.1@)),
                i <= docs@.len(),
                seq_views(out@) == non_null_documents(all.take(i as int)),
            decreases docs.len() - i,
        {
            proof {
                reveal(Seq::filter);
                let t = all.take(i + 1);
                assert(t.drop_last() =~= all.take(i as int));
                assert(t.last() == (docs@[i as int].0, docs@[i as int].1@));
            }
            let ghost before = out@;
            if !docs[i].0 {
                out.push(docs[i].1.clone());
                assert(seq_views(out@) =~= seq_views(before).push(docs@[i as int].1@));
            }
            assert(seq_views(out@) =~= non_null_documents(all.take(i + 1)));
            i = i + 1;
        }
        assert(all.take(docs@.len() as int) =~= all);
        Ok(out)
    }
}

} // verus!
