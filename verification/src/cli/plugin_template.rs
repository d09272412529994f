//! Scaffolding of a new plugin: its crate name, the name of its plugin
//! type, and the files it starts with. Writing the files is the caller's.

use vstd::prelude::*;
use crate::config::loader::{join_path, path_join};
use crate::text::{push_char, push_str, replace_char, replace_char_seq, to_owned_string, to_uppercase, uppercase_of};
use super::commands::PluginNewArgs;

verus! {

/// A character that separates the words of a plugin name.
pub open spec fn word_separator(c: char) -> bool {
    c == '-' || c == '_'
}

/// The pieces of a name between word separators.
pub open spec fn word_pieces(s: Seq<char>) -> Seq<Seq<char>>
    decreases s.len(),
{
    if s.len() == 0 {
        seq![seq![]]
    } else {
        let p = word_pieces(s.drop_last());
        if word_separator(s.last()) {
            p.push(seq![])
        } else {
            p.update(p.len() - 1, p.last().push(s.last()))
        }
    }
}

/// A word with its first character in upper case (as `str::to_uppercase`
/// maps it).
pub open spec fn capitalized(w: Seq<char>) -> Seq<char> {
    if w.len() == 0 {
        seq![]
    } else {
        uppercase_of(seq![w[0]]) + w.skip(1)
    }
}

/// The capitalized words, joined.
pub open spec fn joined_capitalized(words: Seq<Seq<char>>) -> Seq<char>
    decreases words.len(),
{
    if words.len() == 0 {
        seq![]
    } else {
        joined_capitalized(words.drop_last()) + capitalized(words.last())
    }
}

/// A kebab-case or snake_case name in PascalCase.
pub open spec fn pascal_case(s: Seq<char>) -> Seq<char> {
    joined_capitalized(word_pieces(s))
}

proof fn lemma_word_pieces_nonempty(s: Seq<char>)
    ensures
        word_pieces(s).len() >= 1,
    decreases s.len(),
{
    if s.len() > 0 {
        lemma_word_pieces_nonempty(s.drop_last());
    }
}

/// Converts a kebab-case or snake_case name to PascalCase.
pub fn to_pascal_case(s: &str) -> (r: String)
    ensures
        r@ == pascal_case(s@),
{
    let v = crate::text::chars_of(s);
    let mut out = String::new();
    let mut at_start = true;
    let mut i: usize = 0;
    proof { lemma_word_pieces_nonempty(s@.take(0)); }
    assert(s@.take(0) =~= Seq::<char>::empty());
    while i < v.len()
        invariant
            v@ == s@,
            i <= v@.len(),
            word_pieces(s@.take(i as int)).len() >= 1,
            at_start == (word_pieces(s@.take(i as int)).last().len() == 0),
            out@ == joined_capitalized(word_pieces(s@.take(i as int)).drop_last())
                + capitalized(word_pieces(s@.take(i as int)).last()),
        decreases v.len() - i,
    {
        let ghost before = word_pieces(s@.take(i as int));
        let ghost prev = out@;
        proof {
            assert(s@.take(i + 1).drop_last() =~= s@.take(i as int));
            assert(s@.take(i + 1).last() == v@[i as int]);
        }
        let c = v[i];
        if c == '-' || c == '_' {
            at_start = true;
            proof {
                let after = word_pieces(s@.take(i + 1));
                assert(after == before.push(seq![]));
                assert(after.drop_last() =~= before);
                assert(joined_capitalized(before) == joined_capitalized(before.drop_last()) + capitalized(before.last()));
                assert(out@ =~= joined_capitalized(after.drop_last()) + capitalized(after.last()));
            }
        } else {
            let ghost w = before.last();
            if at_start {
                let mut one = String::new();
                push_char(&mut one, c);
                let up = to_uppercase(one.as_str());
                push_str(&mut out, up.as_str());
                proof {
                    assert(one@ =~= seq![c]);
                    assert(w.push(c) =~= seq![c]);
                    assert(seq![c].skip(1) =~= Seq::<char>::empty());
                    assert(capitalized(w.push(c)) =~= uppercase_of(seq![c]));
                }
            } else {
                push_char(&mut out, c);
                proof {
                    assert(w.push(c)[0] == w[0]);
                    assert(w.push(c).skip(1) =~= w.skip(1).push(c));
                    assert(capitalized(w.push(c)) =~= capitalized(w).push(c));
                }
            }
            at_start = false;
            proof {
                let after = word_pieces(s@.take(i + 1));
                assert(after == before.update(before.len() - 1, w.push(c)));
                assert(after.drop_last() =~= before.drop_last());
                assert(after.last() == w.push(c));
                assert(out@ =~= joined_capitalized(after.drop_last()) + capitalized(after.last()));
            }
        }
        i = i + 1;
    }
    assert(s@.take(v@.len() as int) =~= s@);
    proof {
        let all = word_pieces(s@);
        assert(joined_capitalized(all) == joined_capitalized(all.drop_last()) + capitalized(all.last()));
    }
    out
}

pub open spec fn plugin_cargo_toml(crate_name: Seq<char>, description: Seq<char>) -> Seq<char> {
    "[package]\nname = \""@
        + crate_name
        + "\"\nversion = \"0.1.0\"\nedition = \"2024\"\ndescription = \""@
        + description
        + "\"\nlicense = \"MIT\"\n\n[lib]\ncrate-type = [\"cdylib\"]\n\n[dependencies]\npmp-deploy-plugin-sdk = { git = \"https://github.com/yourusername/pmp-deploy\", package = \"pmp-deploy-plugin-sdk\" }\nserde_json = \"1\"\n"@
}

pub open spec fn plugin_lib_source(name: Seq<char>, struct_name: Seq<char>, description: Seq<char>, infrastructure_type: Seq<char>) -> Seq<char> {
    "//! "@
        + description
        + "\n\nuse pmp_deploy_plugin_sdk::*;\n\n/// "@
        + struct_name
        + " plugin implementation.\n#[derive(Default)]\npub struct "@
        + struct_name
        + "Plugin;\n\nimpl InfrastructurePlugin for "@
        + struct_name
        + "Plugin {\n    fn validate_config(&self, config: &PluginConfig) -> PluginResult<()> {\n        // Implement configuration validation\n        // Example: Check for required fields\n        // if !config.contains_key(\"required_field\") {\n        //     return Err(PluginError::ConfigError(\n        //         \"Missing required field: 'required_field'\".to_string(),\n        //     ));\n        // }\n        Ok(())\n    }\n\n    fn deploy(&self, ctx: &DeploymentContext) -> PluginResult<DeploymentResult> {\n        if ctx.dry_run {\n            return Ok(DeploymentResult::success(\n                &format!(\n                    \"[DRY RUN] Would deploy to environment '{}'\",\n                    ctx.environment_name\n                ),\n                \"v0.0.0-dry-run\",\n            ));\n        }\n\n        // Implement deployment logic\n        // Example:\n        // let target = ctx.config.get(\"target\")\n        //     .and_then(|v| v.as_str())\n        //     .unwrap_or(\"default\");\n        //\n        // deploy_to_infrastructure(target)?;\n\n        Ok(DeploymentResult::success(\n            &format!(\n                \"Successfully deployed to environment '{}'\",\n                ctx.environment_name\n            ),\n            \"v1.0.0\",\n        ))\n    }\n\n    fn rollback(&self, ctx: &DeploymentContext) -> PluginResult<DeploymentResult> {\n        // Implement rollback logic\n        Ok(DeploymentResult::success(\n            &format!(\n                \"Successfully rolled back environment '{}'\",\n                ctx.environment_name\n            ),\n            \"v0.9.0\",\n        ))\n    }\n\n    fn status(&self, ctx: &DeploymentContext) -> PluginResult<String> {\n        // Implement status check\n        Ok(format!(\n            \"Environment '{}': Running\",\n            ctx.environment_name\n        ))\n    }\n\n    fn logs(&self, ctx: &DeploymentContext, follow: bool) -> PluginResult<String> {\n        // Implement log retrieval\n        let follow_str = if follow { \" (following)\" } else { \"\" };\n        Ok(format!(\n            \"Logs for environment '{}'{}:\\\\n[No logs available yet]\",\n            ctx.environment_name, follow_str\n        ))\n    }\n\n    fn init(&self) -> PluginResult<()> {\n        // Implement plugin initialization (optional)\n        Ok(())\n    }\n\n    fn shutdown(&self) {\n        // Implement plugin cleanup (optional)\n    }\n}\n\n// Export the plugin using the declare_plugin! macro\ndeclare_plugin!(\n    name: \""@
        + name
        + "-plugin\",\n    version: \"0.1.0\",\n    description: \""@
        + description
        + "\",\n    infrastructure_type: \""@
        + infrastructure_type
        + "\",\n    plugin: "@
        + struct_name
        + "Plugin,\n);\n\n#[cfg(test)]\nmod tests {\n    use super::*;\n    use std::collections::HashMap;\n\n    #[test]\n    fn test_validate_config() {\n        let plugin = "@
        + struct_name
        + "Plugin;\n        let config: PluginConfig = HashMap::new();\n        assert!(plugin.validate_config(&config).is_ok());\n    }\n\n    #[test]\n    fn test_deploy_dry_run() {\n        let plugin = "@
        + struct_name
        + "Plugin;\n        let ctx = DeploymentContext {\n            environment_name: \"test\".to_string(),\n            infrastructure_name: \"test-infra\".to_string(),\n            config: HashMap::new(),\n            dry_run: true,\n            verbose: false,\n        };\n\n        let result = plugin.deploy(&ctx).unwrap();\n        assert!(result.success);\n        assert!(result.message.contains(\"DRY RUN\"));\n    }\n}\n"@
}

pub open spec fn plugin_readme(name: Seq<char>, description: Seq<char>, crate_name: Seq<char>, infrastructure_type: Seq<char>) -> Seq<char> {
    "# "@
        + name
        + "-plugin\n\n"@
        + description
        + "\n\n## Building\n\n```bash\ncargo build --release\n```\n\n## Installation\n\nCopy the built library to the pmp-deploy plugins directory:\n\n### Windows\n```bash\ncopy target\\release\\"@
        + crate_name
        + ".dll %USERPROFILE%\\.pmp-deploy\\plugins\\\n```\n\n### Linux/macOS\n```bash\ncp target/release/lib"@
        + crate_name
        + ".so ~/.pmp-deploy/plugins/\n# or on macOS:\ncp target/release/lib"@
        + crate_name
        + ".dylib ~/.pmp-deploy/plugins/\n```\n\n## Usage\n\nIn your `pmp-deploy.yaml`:\n\n```yaml\nenvironments:\n  my-env:\n    infrastructure: my-"@
        + name
        + "\n    image: my-image:tag\n\ninfrastructure:\n  my-"@
        + name
        + ":\n    type: "@
        + infrastructure_type
        + "\n    config:\n      # Add your configuration here\n```\n\n## Configuration Options\n\n| Option | Required | Description |\n|--------|----------|-------------|\n| TBD    | TBD      | TBD         |\n\n## Development\n\nRun tests:\n\n```bash\ncargo test\n```\n\n## License\n\nMIT\n"@
}

/// A file of a new plugin: where it goes and what it holds.
#[derive(Debug, Clone)]
pub struct GeneratedFile {
    pub path: String,
    pub content: String,
}

/// The scaffolding of a new plugin.
#[derive(Debug, Clone)]
pub struct PluginGenerator {
    pub name: String,
    pub output_dir: String,
    pub infrastructure_type: String,
    pub description: String,
}

/// The crate name of a plugin: its name with underscores for dashes,
/// between "pmp-deploy-" and "-plugin".
pub open spec fn plugin_crate_name(name: Seq<char>) -> Seq<char> {
    "pmp-deploy-"@ + replace_char_seq(name, '-', '_') + "-plugin"@
}

impl PluginGenerator {
    /// The scaffolding a `plugin new` asks for: written to the given
    /// directory, else to one named like the plugin; described as given,
    /// else as "{name} infrastructure plugin for pmp-deploy".
    pub fn new(args: &PluginNewArgs) -> (r: Self)
        ensures
            r.name@ == args.name@,
            r.output_dir@ == (match args.output_dir {
                Some(d) => d@,
                None => args.name@,
            }),
            r.infrastructure_type@ == args.infrastructure_type@,
            r.description@ == (match args.description {
                Some(d) => d@,
                None => args.name@ + " infrastructure plugin for pmp-deploy"@,
            }),
    {
        let output_dir = match &args.output_dir {
            Some(d) => d.clone(),
            None => args.name.clone(),
        };
        let description = match &args.description {
            Some(d) => d.clone(),
            None => {
                let mut d = args.name.clone();
                push_str(&mut d, " infrastructure plugin for pmp-deploy");
                d
            },
        };
        PluginGenerator {
            name: args.name.clone(),
            output_dir,
            infrastructure_type: args.infrastructure_type.clone(),
            description,
        }
    }

    pub fn plugin_name(&self) -> (r: &str)
        ensures
            r@ == self.name@,
    {
        self.name.as_str()
    }

    pub fn output_dir(&self) -> (r: &str)
        ensures
            r@ == self.output_dir@,
    {
        self.output_dir.as_str()
    }

    pub fn crate_name(&self) -> (r: String)
        ensures
            r@ == plugin_crate_name(self.name@),
    {
        let mut c = to_owned_string("pmp-deploy-");
        let n = replace_char(self.name.as_str(), '-', '_');
        push_str(&mut c, n.as_str());
        push_str(&mut c, "-plugin");
        c
    }

    /// The Cargo manifest of the plugin.
    pub fn cargo_toml_content(&self) -> (r: String)
        ensures
            r@ == plugin_cargo_toml(plugin_crate_name(self.name@), self.description@),
    {
        let crate_name = self.crate_name();
        let mut out = String::new();
        push_str(&mut out, "[package]\nname = \"");
        push_str(&mut out, crate_name.as_str());
        push_str(&mut out, "\"\nversion = \"0.1.0\"\nedition = \"2024\"\ndescription = \"");
        push_str(&mut out, self.description.as_str());
        push_str(&mut out, "\"\nlicense = \"MIT\"\n\n[lib]\ncrate-type = [\"cdylib\"]\n\n[dependencies]\npmp-deploy-plugin-sdk = { git = \"https://github.com/yourusername/pmp-deploy\", package = \"pmp-deploy-plugin-sdk\" }\nserde_json = \"1\"\n");
        out
    }

    /// The source of the plugin: a plugin type with every operation stubbed.
    pub fn lib_rs_content(&self) -> (r: String)
        ensures
            r@ == plugin_lib_source(self.name@, pascal_case(self.name@), self.description@, self.infrastructure_type@),
    {
        let struct_name = to_pascal_case(self.name.as_str());
        let mut out = String::new();
        push_str(&mut out, "//! ");
        push_str(&mut out, self.description.as_str());
        push_str(&mut out, "\n\nuse pmp_deploy_plugin_sdk::*;\n\n/// ");
        push_str(&mut out, struct_name.as_str());
        push_str(&mut out, " plugin implementation.\n#[derive(Default)]\npub struct ");
        push_str(&mut out, struct_name.as_str());
        push_str(&mut out, "Plugin;\n\nimpl InfrastructurePlugin for ");
        push_str(&mut out, struct_name.as_str());
        push_str(&mut out, "Plugin {\n    fn validate_config(&self, config: &PluginConfig) -> PluginResult<()> {\n        // Implement configuration validation\n        // Example: Check for required fields\n        // if !config.contains_key(\"required_field\") {\n        //     return Err(PluginError::ConfigError(\n        //         \"Missing required field: 'required_field'\".to_string(),\n        //     ));\n        // }\n        Ok(())\n    }\n\n    fn deploy(&self, ctx: &DeploymentContext) -> PluginResult<DeploymentResult> {\n        if ctx.dry_run {\n            return Ok(DeploymentResult::success(\n                &format!(\n                    \"[DRY RUN] Would deploy to environment '{}'\",\n                    ctx.environment_name\n                ),\n                \"v0.0.0-dry-run\",\n            ));\n        }\n\n        // Implement deployment logic\n        // Example:\n        // let target = ctx.config.get(\"target\")\n        //     .and_then(|v| v.as_str())\n        //     .unwrap_or(\"default\");\n        //\n        // deploy_to_infrastructure(target)?;\n\n        Ok(DeploymentResult::success(\n            &format!(\n                \"Successfully deployed to environment '{}'\",\n                ctx.environment_name\n            ),\n            \"v1.0.0\",\n        ))\n    }\n\n    fn rollback(&self, ctx: &DeploymentContext) -> PluginResult<DeploymentResult> {\n        // Implement rollback logic\n        Ok(DeploymentResult::success(\n            &format!(\n                \"Successfully rolled back environment '{}'\",\n                ctx.environment_name\n            ),\n            \"v0.9.0\",\n        ))\n    }\n\n    fn status(&self, ctx: &DeploymentContext) -> PluginResult<String> {\n        // Implement status check\n        Ok(format!(\n            \"Environment '{}': Running\",\n            ctx.environment_name\n        ))\n    }\n\n    fn logs(&self, ctx: &DeploymentContext, follow: bool) -> PluginResult<String> {\n        // Implement log retrieval\n        let follow_str = if follow { \" (following)\" } else { \"\" };\n        Ok(format!(\n            \"Logs for environment '{}'{}:\\\\n[No logs available yet]\",\n            ctx.environment_name, follow_str\n        ))\n    }\n\n    fn init(&self) -> PluginResult<()> {\n        // Implement plugin initialization (optional)\n        Ok(())\n    }\n\n    fn shutdown(&self) {\n        // Implement plugin cleanup (optional)\n    }\n}\n\n// Export the plugin using the declare_plugin! macro\ndeclare_plugin!(\n    name: \"");
        push_str(&mut out, self.name.as_str());
        push_str(&mut out, "-plugin\",\n    version: \"0.1.0\",\n    description: \"");
        push_str(&mut out, self.description.as_str());
        push_str(&mut out, "\",\n    infrastructure_type: \"");
        push_str(&mut out, self.infrastructure_type.as_str());
        push_str(&mut out, "\",\n    plugin: ");
        push_str(&mut out, struct_name.as_str());
        push_str(&mut out, "Plugin,\n);\n\n#[cfg(test)]\nmod tests {\n    use super::*;\n    use std::collections::HashMap;\n\n    #[test]\n    fn test_validate_config() {\n        let plugin = ");
        push_str(&mut out, struct_name.as_str());
        push_str(&mut out, "Plugin;\n        let config: PluginConfig = HashMap::new();\n        assert!(plugin.validate_config(&config).is_ok());\n    }\n\n    #[test]\n    fn test_deploy_dry_run() {\n        let plugin = ");
        push_str(&mut out, struct_name.as_str());
        push_str(&mut out, "Plugin;\n        let ctx = DeploymentContext {\n            environment_name: \"test\".to_string(),\n            infrastructure_name: \"test-infra\".to_string(),\n            config: HashMap::new(),\n            dry_run: true,\n            verbose: false,\n        };\n\n        let result = plugin.deploy(&ctx).unwrap();\n        assert!(result.success);\n        assert!(result.message.contains(\"DRY RUN\"));\n    }\n}\n");
        out
    }

    /// The README of the plugin.
    pub fn readme_content(&self) -> (r: String)
        ensures
            r@ == plugin_readme(self.name@, self.description@, plugin_crate_name(self.name@), self.infrastructure_type@),
    {
        let crate_name = self.crate_name();
        let mut out = String::new();
        push_str(&mut out, "# ");
        push_str(&mut out, self.name.as_str());
        push_str(&mut out, "-plugin\n\n");
        push_str(&mut out, self.description.as_str());
        push_str(&mut out, "\n\n## Building\n\n```bash\ncargo build --release\n```\n\n## Installation\n\nCopy the built library to the pmp-deploy plugins directory:\n\n### Windows\n```bash\ncopy target\\release\\");
        push_str(&mut out, crate_name.as_str());
        push_str(&mut out, ".dll %USERPROFILE%\\.pmp-deploy\\plugins\\\n```\n\n### Linux/macOS\n```bash\ncp target/release/lib");
        push_str(&mut out, crate_name.as_str());
        push_str(&mut out, ".so ~/.pmp-deploy/plugins/\n# or on macOS:\ncp target/release/lib");
        push_str(&mut out, crate_name.as_str());
        push_str(&mut out, ".dylib ~/.pmp-deploy/plugins/\n```\n\n## Usage\n\nIn your `pmp-deploy.yaml`:\n\n```yaml\nenvironments:\n  my-env:\n    infrastructure: my-");
        push_str(&mut out, self.name.as_str());
        push_str(&mut out, "\n    image: my-image:tag\n\ninfrastructure:\n  my-");
        push_str(&mut out, self.name.as_str());
        push_str(&mut out, ":\n    type: ");
        push_str(&mut out, self.infrastructure_type.as_str());
        push_str(&mut out, "\n    config:\n      # Add your configuration here\n```\n\n## Configuration Options\n\n| Option | Required | Description |\n|--------|----------|-------------|\n| TBD    | TBD      | TBD         |\n\n## Development\n\nRun tests:\n\n```bash\ncargo test\n```\n\n## License\n\nMIT\n");
        out
    }

    /// The directory the sources go in.
    pub fn source_dir(&self) -> (r: String)
        ensures
            r@ == path_join(self.output_dir@, "src"@),
    {
        join_path(self.output_dir.as_str(), "src")
    }

    /// The files of the plugin, in the order they are written: the Cargo
    /// manifest, the source, the README.
    pub fn generate(&self) -> (r: Vec<GeneratedFile>)
        ensures
            r@.len() == 3,
            r@[0].path@ == path_join(self.output_dir@, "Cargo.toml"@),
            r@[0].content@ == plugin_cargo_toml(plugin_crate_name(self.name@), self.description@),
            r@[1].path@ == path_join(path_join(self.output_dir@, "src"@), "lib.rs"@),
            r@[1].content@ == plugin_lib_source(self.name@, pascal_case(self.name@), self.description@, self.infrastructure_type@),
            r@[2].path@ == path_join(self.output_dir@, "README.md"@),
            r@[2].content@ == plugin_readme(self.name@, self.description@, plugin_crate_name(self.name@), self.infrastructure_type@),
    {
        let mut files: Vec<GeneratedFile> = Vec::new();
        files.push(GeneratedFile {
            path: join_path(self.output_dir.as_str(), "Cargo.toml"),
            content: self.cargo_toml_content(),
        });
        let src = self.source_dir();
        files.push(GeneratedFile { path: join_path(src.as_str(), "lib.rs"), content: self.lib_rs_content() });
        files.push(GeneratedFile {
            path: join_path(self.output_dir.as_str(), "README.md"),
            content: self.readme_content(),
        });
        files
    }
}

} // verus!
