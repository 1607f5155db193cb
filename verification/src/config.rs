//! The registry of known models: which endpoint serves a model, which
//! provider runs that endpoint, and which environment variable holds the
//! provider's credential.

use crate::text::{
    contains, join, joined, lemma_contains_middle, lemma_contains_transitive,
    lemma_joined_contains_part, lemma_lex_lt_irreflexive, lemma_lex_lt_transitive, lex_lt,
    occurs_at, precedes_at, str_contains, str_eq,
};
use vstd::string::StringExecFns;
use vstd::prelude::*;

verus! {

/// The endpoint that serves the Gemini models.
pub const GEMINI_URL: &'static str = "https://generativelanguage.googleapis.com/v1beta/openai";

/// The endpoint that serves the OpenAI models.
pub const OPENAI_URL: &'static str = "https://api.openai.com/v1";

/// The host by which a Gemini endpoint is recognised.
pub const GEMINI_HOST: &'static str = "generativelanguage.googleapis.com";

/// The host by which an OpenAI endpoint is recognised.
pub const OPENAI_HOST: &'static str = "api.openai.com";

/// The provider name of Gemini endpoints.
pub const GEMINI: &'static str = "Google Gemini";

/// The provider name of OpenAI endpoints.
pub const OPENAI: &'static str = "OpenAI";

/// The provider name of every other endpoint.
pub const OTHER: &'static str = "Other";

/// The environment variable that holds the Gemini credential.
pub const GEMINI_KEY_VAR: &'static str = "GOOGLE_AI_API_KEY";

/// The environment variable that holds the OpenAI credential.
pub const OPENAI_KEY_VAR: &'static str = "OPENAI_API_KEY";

/// How to go on after an unknown model, as the last part of the message
/// about it.
pub const MODEL_ERROR_USAGE: &'static str =
    "\n\n使用方法:\n  使用支持的模型: transome -m <模型名称> \"<文本>\"\n  或提供自定义 URL: transome -u <URL> -m <模型名称> \"<文本>\"\n  列出所有模型: transome --list-models";

/// The first line of the listing of models.
pub const LISTING_HEAD: &'static str = "\n支持的模型:\n";

/// The usage notes that end the listing of models.
pub const LISTING_USAGE: &'static str =
    "\n使用方法:\n  transome [选项] [文本]\n\n选项:\n  -m, --model <模型>    使用上述列表中的支持模型\n  -u, --url <地址>      使用自定义 API 地址（覆盖模型选择）\n\n示例:\n  transome -m gpt-4 \"Hello world\"\n  transome -u https://custom.api.com/v1 -m custom-model \"Hello world\"\n";

/// One model of the registry.
#[derive(Debug, Clone, PartialEq, Eq)]
pub struct ModelConfig {
    pub name: String,
    pub url: String,
    pub provider: String,
}

/// What a `ModelConfig` holds, as sequences of characters.
pub struct ModelConfigView {
    pub name: Seq<char>,
    pub url: Seq<char>,
    pub provider: Seq<char>,
}

impl View for ModelConfig {
    type V = ModelConfigView;

    open spec fn view(&self) -> ModelConfigView {
        ModelConfigView { name: self.name@, url: self.url@, provider: self.provider@ }
    }
}

impl DeepView for ModelConfig {
    type V = ModelConfigView;

    open spec fn deep_view(&self) -> ModelConfigView {
        self@
    }
}

impl ModelConfig {
    /// A model with the given name, endpoint and provider.
    pub fn new(name: &str, url: &str, provider: &str) -> (r: Self)
        ensures
            r@ == (ModelConfigView { name: name@, url: url@, provider: provider@ }),
    {
        ModelConfig { name: name.to_owned(), url: url.to_owned(), provider: provider.to_owned() }
    }
}

/// The registry: each known model with its endpoint, ordered by provider and
/// then by name.
pub open spec fn model_table() -> Seq<(Seq<char>, Seq<char>)> {
    seq![
        ("gemini-1.5-flash"@, GEMINI_URL@),
        ("gemini-1.5-pro"@, GEMINI_URL@),
        ("gemini-2.5-flash"@, GEMINI_URL@),
        ("gemini-2.5-flash-lite"@, GEMINI_URL@),
        ("gemini-2.5-pro"@, GEMINI_URL@),
        ("gpt-3.5-turbo"@, OPENAI_URL@),
        ("gpt-3.5-turbo-16k"@, OPENAI_URL@),
        ("gpt-4"@, OPENAI_URL@),
        ("gpt-4-turbo"@, OPENAI_URL@),
        ("gpt-4o"@, OPENAI_URL@),
        ("gpt-4o-mini"@, OPENAI_URL@),
    ]
}

/// The pairs of an executable table, as sequences of characters.
pub open spec fn table_view(table: Seq<(&'static str, &'static str)>) -> Seq<
    (Seq<char>, Seq<char>),
> {
    Seq::new(table.len(), |i: int| (table[i].0@, table[i].1@))
}

/// The endpoint of the first entry of `table` whose name is `model`.
pub open spec fn lookup(table: Seq<(Seq<char>, Seq<char>)>, model: Seq<char>) -> Option<
    Seq<char>,
>
    decreases table.len(),
{
    if table.len() == 0 {
        None
    } else if table[0].0 == model {
        Some(table[0].1)
    } else {
        lookup(table.drop_first(), model)
    }
}

/// The endpoint that serves `model`, if the registry knows the model. Names
/// are matched as they stand: case matters and nothing is trimmed.
pub open spec fn model_url(model: Seq<char>) -> Option<Seq<char>> {
    lookup(model_table(), model)
}

/// The provider behind a model name or an endpoint URL: a known model stands
/// for its endpoint, anything else is read as a URL, and the URL is judged by
/// the host it mentions.
pub open spec fn provider_of(model_or_url: Seq<char>) -> Seq<char> {
    let url = match model_url(model_or_url) {
        Some(u) => u,
        None => model_or_url,
    };
    if contains(url, GEMINI_HOST@) {
        GEMINI@
    } else if contains(url, OPENAI_HOST@) {
        OPENAI@
    } else {
        OTHER@
    }
}

/// The environment variable that holds the credential for `model`.
pub open spec fn credential_variable(model: Seq<char>) -> Option<Seq<char>> {
    if provider_of(model) == OPENAI@ {
        Some(OPENAI_KEY_VAR@)
    } else if provider_of(model) == GEMINI@ {
        Some(GEMINI_KEY_VAR@)
    } else {
        None
    }
}

/// The registry as an executable table.
pub fn get_model_to_url() -> (table: Vec<(&'static str, &'static str)>)
    ensures
        table_view(table@) == model_table(),
{
    let table = vec![
        ("gemini-1.5-flash", GEMINI_URL),
        ("gemini-1.5-pro", GEMINI_URL),
        ("gemini-2.5-flash", GEMINI_URL),
        ("gemini-2.5-flash-lite", GEMINI_URL),
        ("gemini-2.5-pro", GEMINI_URL),
        ("gpt-3.5-turbo", OPENAI_URL),
        ("gpt-3.5-turbo-16k", OPENAI_URL),
        ("gpt-4", OPENAI_URL),
        ("gpt-4-turbo", OPENAI_URL),
        ("gpt-4o", OPENAI_URL),
        ("gpt-4o-mini", OPENAI_URL),
    ];
    assert(table_view(table@) =~= model_table());
    table
}

/// The endpoint that serves `model`, or `None` for a model that the registry
/// does not know.
pub fn get_model_url(model: &str) -> (r: Option<String>)
    ensures
        r.deep_view() == model_url(model@),
{
    let table = get_model_to_url();
    let n: usize = table.len();
    let mut i: usize = 0;
    assert(model_table().subrange(0, n as int) =~= model_table());
    while i < n
        invariant
            i <= n,
            n == table@.len(),
            table_view(table@) == model_table(),
            model_url(model@) == lookup(model_table().subrange(i as int, n as int), model@),
        decreases n - i,
    {
        let ghost rest = model_table().subrange(i as int, n as int);
        assert(rest[0] == table_view(table@)[i as int]);
        assert(rest.drop_first() =~= model_table().subrange(i + 1, n as int));
        if str_eq(table[i].0, model) {
            return Some(table[i].1.to_owned());
        }
        i += 1;
    }
    None
}

/// Whether the registry knows `model_name`.
pub fn is_model_supported(model_name: &str) -> (r: bool)
    ensures
        r == model_url(model_name@).is_some(),
{
    get_model_url(model_name).is_some()
}

/// The provider behind a model name or an endpoint URL: `"Google Gemini"`,
/// `"OpenAI"` or `"Other"`.
pub fn get_provider_name(model_or_url: &str) -> (r: &'static str)
    ensures
        r@ == provider_of(model_or_url@),
{
    let url = match get_model_url(model_or_url) {
        Some(model_url) => model_url,
        None => model_or_url.to_owned(),
    };
    if str_contains(url.as_str(), GEMINI_HOST) {
        GEMINI
    } else if str_contains(url.as_str(), OPENAI_HOST) {
        OPENAI
    } else {
        OTHER
    }
}

/// The environment variable that holds the credential for `model`, or `None`
/// where the provider is not one of the two known ones.
pub fn get_env_var_name_for_model(model: &str) -> (r: Option<&'static str>)
    ensures
        r.deep_view() == credential_variable(model@),
{
    let provider = get_provider_name(model);
    if str_eq(provider, OPENAI) {
        Some(OPENAI_KEY_VAR)
    } else if str_eq(provider, GEMINI) {
        Some(GEMINI_KEY_VAR)
    } else {
        None
    }
}

/// Every model of the registry with its endpoint and provider, in the
/// registry's order.
pub open spec fn all_models() -> Seq<ModelConfigView> {
    Seq::new(
        model_table().len(),
        |i: int|
            ModelConfigView {
                name: model_table()[i].0,
                url: model_table()[i].1,
                provider: provider_of(model_table()[i].0),
            },
    )
}

/// The names of the entries of `table`, in order.
pub open spec fn names_of(table: Seq<(Seq<char>, Seq<char>)>) -> Seq<Seq<char>> {
    Seq::new(table.len(), |i: int| table[i].0)
}

/// The providers of the entries of `table`, each once, in the order in which
/// they first appear.
pub open spec fn providers_seen(table: Seq<(Seq<char>, Seq<char>)>) -> Seq<Seq<char>>
    decreases table.len(),
{
    if table.len() == 0 {
        Seq::empty()
    } else {
        let before = providers_seen(table.drop_last());
        let provider = provider_of(table.last().0);
        if before.contains(provider) {
            before
        } else {
            before.push(provider)
        }
    }
}

/// The entries of `table` that `provider` serves, in the table's order.
pub open spec fn models_of(table: Seq<(Seq<char>, Seq<char>)>, provider: Seq<char>) -> Seq<
    (Seq<char>, Seq<char>),
>
    decreases table.len(),
{
    if table.len() == 0 {
        Seq::empty()
    } else {
        let before = models_of(table.drop_last(), provider);
        if provider_of(table.last().0) == provider {
            before.push(table.last())
        } else {
            before
        }
    }
}

/// The entries of `table` grouped by provider: one group for each provider,
/// in the order of `providers_seen`, each with all it serves.
pub open spec fn grouped(table: Seq<(Seq<char>, Seq<char>)>) -> Seq<
    (Seq<char>, Seq<(Seq<char>, Seq<char>)>),
> {
    Seq::new(
        providers_seen(table).len(),
        |i: int| (providers_seen(table)[i], models_of(table, providers_seen(table)[i])),
    )
}

/// The groups of an executable grouping, as sequences of characters.
pub open spec fn groups_view(
    groups: Seq<(&'static str, Vec<(&'static str, &'static str)>)>,
) -> Seq<(Seq<char>, Seq<(Seq<char>, Seq<char>)>)> {
    Seq::new(groups.len(), |i: int| (groups[i].0@, table_view(groups[i].1@)))
}

/// The providers of `groups`, in order.
pub open spec fn providers_of(groups: Seq<(Seq<char>, Seq<(Seq<char>, Seq<char>)>)>) -> Seq<
    Seq<char>,
> {
    Seq::new(groups.len(), |i: int| groups[i].0)
}

/// Every model of the registry with its endpoint and provider, ordered by
/// provider and then by name.
pub fn get_all_models() -> (r: Vec<ModelConfig>)
    ensures
        r.deep_view() == all_models(),
        models_sorted(r.deep_view()),
{
    proof {
        lemma_all_models_sorted();
    }
    let table = get_model_to_url();
    let mut models: Vec<ModelConfig> = Vec::new();
    let mut i: usize = 0;
    while i < table.len()
        invariant
            i <= table@.len(),
            table_view(table@) == model_table(),
            models.deep_view() == all_models().take(i as int),
        decreases table@.len() - i,
    {
        let model: &'static str = table[i].0;
        let url: &'static str = table[i].1;
        assert(table_view(table@)[i as int] == (model@, url@));
        let provider = get_provider_name(model);
        let ghost before = models.deep_view();
        models.push(ModelConfig::new(model, url, provider));
        assert(models.deep_view() =~= before.push(all_models()[i as int]));
        assert(models.deep_view() =~= all_models().take(i + 1));
        i += 1;
    }
    assert(all_models().take(table@.len() as int) =~= all_models());
    models
}

/// The names of all models of the registry, in the order of `get_all_models`.
pub fn get_supported_model_names() -> (r: Vec<String>)
    ensures
        r.deep_view() == names_of(model_table()),
{
    let models = get_all_models();
    let mut names: Vec<String> = Vec::new();
    let mut i: usize = 0;
    assert(models.deep_view().len() == models@.len());
    while i < models.len()
        invariant
            i <= models@.len(),
            models@.len() == model_table().len(),
            models.deep_view() == all_models(),
            names.deep_view() == names_of(model_table()).take(i as int),
        decreases models@.len() - i,
    {
        assert(models.deep_view()[i as int] == models@[i as int]@);
        let ghost before = names.deep_view();
        names.push(models[i].name.clone());
        assert(names.deep_view() =~= before.push(model_table()[i as int].0));
        assert(names.deep_view() =~= names_of(model_table()).take(i + 1));
        i += 1;
    }
    assert(names_of(model_table()).take(models@.len() as int) =~= names_of(model_table()));
    names
}

/// The entries of `table` that `provider` serves, in the table's order.
fn models_of_provider(table: &Vec<(&'static str, &'static str)>, provider: &str) -> (r: Vec<
    (&'static str, &'static str),
>)
    ensures
        table_view(r@) == models_of(table_view(table@), provider@),
{
    let mut members: Vec<(&'static str, &'static str)> = Vec::new();
    let mut i: usize = 0;
    while i < table.len()
        invariant
            i <= table@.len(),
            table_view(members@) == models_of(table_view(table@).take(i as int), provider@),
        decreases table@.len() - i,
    {
        let model: &'static str = table[i].0;
        let url: &'static str = table[i].1;
        let ghost upto = table_view(table@).take(i + 1);
        assert(upto.drop_last() =~= table_view(table@).take(i as int));
        assert(upto.last() == (model@, url@));
        if str_eq(get_provider_name(model), provider) {
            let ghost before = table_view(members@);
            members.push((model, url));
            assert(table_view(members@) =~= before.push((model@, url@)));
        }
        i += 1;
    }
    assert(table_view(table@).take(table@.len() as int) =~= table_view(table@));
    members
}

/// Whether one of `groups` is the group of `provider`.
fn has_group(groups: &Vec<(&'static str, Vec<(&'static str, &'static str)>)>, provider: &str) -> (r:
    bool)
    ensures
        r == providers_of(groups_view(groups@)).contains(provider@),
{
    let ghost providers = providers_of(groups_view(groups@));
    let mut i: usize = 0;
    while i < groups.len()
        invariant
            i <= groups@.len(),
            providers == providers_of(groups_view(groups@)),
            forall|k: int| 0 <= k < i ==> providers[k] != provider@,
        decreases groups@.len() - i,
    {
        assert(providers[i as int] == groups@[i as int].0@);
        if str_eq(groups[i].0, provider) {
            return true;
        }
        i += 1;
    }
    false
}

/// The registry grouped by provider: one group for each provider, in the
/// order in which the providers first appear in the registry, each with the
/// models that it serves.
pub fn group_models_by_provider() -> (r: Vec<(&'static str, Vec<(&'static str, &'static str)>)>)
    ensures
        groups_view(r@) == grouped(model_table()),
{
    let table = get_model_to_url();
    let mut groups: Vec<(&'static str, Vec<(&'static str, &'static str)>)> = Vec::new();
    let mut i: usize = 0;
    while i < table.len()
        invariant
            i <= table@.len(),
            table_view(table@) == model_table(),
            providers_of(groups_view(groups@)) == providers_seen(model_table().take(i as int)),
            forall|k: int|
                0 <= k < groups@.len() ==> (#[trigger] groups_view(groups@)[k]).1 == models_of(
                    model_table(),
                    groups_view(groups@)[k].0,
                ),
        decreases table@.len() - i,
    {
        let model: &'static str = table[i].0;
        assert(table_view(table@)[i as int].0 == model@);
        let ghost upto = model_table().take(i + 1);
        assert(upto.drop_last() =~= model_table().take(i as int));
        let provider = get_provider_name(model);
        if !has_group(&groups, provider) {
            let members = models_of_provider(&table, provider);
            let ghost before = groups_view(groups@);
            groups.push((provider, members));
            assert(groups_view(groups@) =~= before.push(
                (provider@, models_of(model_table(), provider@)),
            ));
            assert(providers_of(groups_view(groups@)) =~= providers_of(before).push(provider@));
        }
        i += 1;
    }
    assert(model_table().take(table@.len() as int) =~= model_table());
    assert(providers_of(groups_view(groups@)).len() == groups@.len());
    assert(groups_view(groups@) =~= grouped(model_table())) by {
        assert forall|k: int| 0 <= k < groups@.len() implies groups_view(groups@)[k] == grouped(
            model_table(),
        )[k] by {
            assert(providers_of(groups_view(groups@))[k] == groups_view(groups@)[k].0);
        }
    }
    groups
}

/// The registry grouped by provider, the providers in alphabetical order and
/// the models of each provider in alphabetical order.
pub fn get_sorted_providers_with_models() -> (r: Vec<
    (&'static str, Vec<(&'static str, &'static str)>),
>)
    ensures
        groups_view(r@) == grouped(model_table()),
        groups_sorted(groups_view(r@)),
{
    proof {
        lemma_registry_groups();
    }
    group_models_by_provider()
}

/// The paragraph of one group: an empty line, the provider, a colon, and the
/// names of its models separated by commas.
pub open spec fn group_paragraph(group: (Seq<char>, Seq<(Seq<char>, Seq<char>)>)) -> Seq<char> {
    "\n\n"@ + group.0 + ": "@ + joined(names_of(group.1), ", "@)
}

/// The paragraphs of the groups, in order.
pub open spec fn groups_text(groups: Seq<(Seq<char>, Seq<(Seq<char>, Seq<char>)>)>) -> Seq<char>
    decreases groups.len(),
{
    if groups.len() == 0 {
        Seq::empty()
    } else {
        groups_text(groups.drop_last()) + group_paragraph(groups.last())
    }
}

/// The message about a model that the registry does not know: the model's
/// name, every model of the registry grouped by provider, and how to go on.
pub open spec fn model_error_message(model: Seq<char>) -> Seq<char> {
    "找不到模型 '"@ + model + "'\n\n支持的模型:"@ + groups_text(grouped(model_table()))
        + MODEL_ERROR_USAGE@
}

/// One line for each entry: two spaces, a dash, and the model's name.
pub open spec fn bullet_lines(models: Seq<(Seq<char>, Seq<char>)>) -> Seq<char>
    decreases models.len(),
{
    if models.len() == 0 {
        Seq::empty()
    } else {
        bullet_lines(models.drop_last()) + "  - "@ + models.last().0 + "\n"@
    }
}

/// One block for each group that is not empty: an empty line, the provider
/// with the endpoint of its first model in brackets, and its models line by
/// line.
pub open spec fn listing_blocks(groups: Seq<(Seq<char>, Seq<(Seq<char>, Seq<char>)>)>) -> Seq<
    char,
>
    decreases groups.len(),
{
    if groups.len() == 0 {
        Seq::empty()
    } else {
        let before = listing_blocks(groups.drop_last());
        let group = groups.last();
        if group.1.len() == 0 {
            before
        } else {
            before + "\n"@ + group.0 + " ("@ + group.1[0].1 + "):\n"@ + bullet_lines(group.1)
        }
    }
}

/// The listing of all models, as it is printed line by line.
pub open spec fn models_listing() -> Seq<char> {
    LISTING_HEAD@ + listing_blocks(grouped(model_table())) + LISTING_USAGE@
}

/// The names of `models` as owned strings.
fn owned_names(models: &Vec<(&'static str, &'static str)>) -> (r: Vec<String>)
    ensures
        r.deep_view() == names_of(table_view(models@)),
{
    let mut names: Vec<String> = Vec::new();
    let mut i: usize = 0;
    while i < models.len()
        invariant
            i <= models@.len(),
            names.deep_view() == names_of(table_view(models@)).take(i as int),
        decreases models@.len() - i,
    {
        let ghost before = names.deep_view();
        names.push(models[i].0.to_owned());
        assert(names.deep_view() =~= before.push(models@[i as int].0@));
        assert(names.deep_view() =~= names_of(table_view(models@)).take(i + 1));
        i += 1;
    }
    assert(names_of(table_view(models@)).take(models@.len() as int) =~= names_of(
        table_view(models@),
    ));
    names
}

/// The message about a model that the registry does not know. It names the
/// model, lists every model of the registry grouped by provider, and says how
/// to go on.
pub fn create_model_error_message(model: &str) -> (r: String)
    ensures
        r@ == model_error_message(model@),
{
    let groups = get_sorted_providers_with_models();
    let mut message = String::from_str("找不到模型 '");
    message.append(model);
    message.append("'\n\n支持的模型:");
    let ghost head = message@;
    assert(head =~= "找不到模型 '"@ + model@ + "'\n\n支持的模型:"@);
    let mut i: usize = 0;
    while i < groups.len()
        invariant
            i <= groups@.len(),
            message@ == head + groups_text(groups_view(groups@).take(i as int)),
        decreases groups@.len() - i,
    {
        let ghost upto = groups_view(groups@).take(i + 1);
        assert(upto.drop_last() =~= groups_view(groups@).take(i as int));
        assert(upto.last() == (groups@[i as int].0@, table_view(groups@[i as int].1@)));
        let names = owned_names(&groups[i].1);
        let line = join(&names, ", ");
        message.append("\n\n");
        message.append(groups[i].0);
        message.append(": ");
        message.append(line.as_str());
        assert(message@ =~= head + groups_text(upto));
        i += 1;
    }
    assert(groups_view(groups@).take(groups@.len() as int) =~= groups_view(groups@));
    message.append(MODEL_ERROR_USAGE);
    assert(message@ =~= model_error_message(model@));
    message
}

/// The lines of the models of one group.
fn bullet_lines_of(models: &Vec<(&'static str, &'static str)>) -> (r: String)
    ensures
        r@ == bullet_lines(table_view(models@)),
{
    let mut lines = String::new();
    let mut i: usize = 0;
    while i < models.len()
        invariant
            i <= models@.len(),
            lines@ == bullet_lines(table_view(models@).take(i as int)),
        decreases models@.len() - i,
    {
        let ghost upto = table_view(models@).take(i + 1);
        assert(upto.drop_last() =~= table_view(models@).take(i as int));
        assert(upto.last().0 == models@[i as int].0@);
        lines.append("  - ");
        lines.append(models[i].0);
        lines.append("\n");
        assert(lines@ =~= bullet_lines(upto));
        i += 1;
    }
    assert(table_view(models@).take(models@.len() as int) =~= table_view(models@));
    lines
}

/// The listing of all models with the usage notes, ready to be printed: the
/// providers in alphabetical order, each with its endpoint and its models.
pub fn list_models() -> (r: String)
    ensures
        r@ == models_listing(),
{
    let groups = get_sorted_providers_with_models();
    let mut listing = String::from_str(LISTING_HEAD);
    let mut i: usize = 0;
    while i < groups.len()
        invariant
            i <= groups@.len(),
            listing@ == LISTING_HEAD@ + listing_blocks(groups_view(groups@).take(i as int)),
        decreases groups@.len() - i,
    {
        let ghost upto = groups_view(groups@).take(i + 1);
        assert(upto.drop_last() =~= groups_view(groups@).take(i as int));
        assert(upto.last() == (groups@[i as int].0@, table_view(groups@[i as int].1@)));
        let models = &groups[i].1;
        if models.len() > 0 {
            assert(table_view(models@)[0].1 == models@[0].1@);
            let lines = bullet_lines_of(models);
            listing.append("\n");
            listing.append(groups[i].0);
            listing.append(" (");
            listing.append(models[0].1);
            listing.append("):\n");
            listing.append(lines.as_str());
        }
        assert(listing@ =~= LISTING_HEAD@ + listing_blocks(upto));
        i += 1;
    }
    assert(groups_view(groups@).take(groups@.len() as int) =~= groups_view(groups@));
    listing.append(LISTING_USAGE);
    listing
}

/// What the two endpoints and the three provider names are made of: each
/// endpoint mentions the host of its own provider and not the other one, and
/// no two provider names are the same.
pub proof fn lemma_endpoints_and_providers()
    ensures
        GEMINI_URL@.len() > 0,
        OPENAI_URL@.len() > 0,
        contains(GEMINI_URL@, GEMINI_HOST@),
        contains(OPENAI_URL@, OPENAI_HOST@),
        !contains(OPENAI_URL@, GEMINI_HOST@),
        GEMINI@ != OPENAI@,
        GEMINI@ != OTHER@,
        OPENAI@ != OTHER@,
        GEMINI_KEY_VAR@ != OPENAI_KEY_VAR@,
{
    reveal_strlit("https://generativelanguage.googleapis.com/v1beta/openai");
    reveal_strlit("https://api.openai.com/v1");
    reveal_strlit("generativelanguage.googleapis.com");
    reveal_strlit("api.openai.com");
    reveal_strlit("Google Gemini");
    reveal_strlit("OpenAI");
    reveal_strlit("Other");
    reveal_strlit("GOOGLE_AI_API_KEY");
    reveal_strlit("OPENAI_API_KEY");
    assert(GEMINI_URL@.subrange(8, 8 + GEMINI_HOST@.len() as int) =~= GEMINI_HOST@);
    assert(occurs_at(GEMINI_URL@, GEMINI_HOST@, 8));
    assert(OPENAI_URL@.subrange(8, 8 + OPENAI_HOST@.len() as int) =~= OPENAI_HOST@);
    assert(occurs_at(OPENAI_URL@, OPENAI_HOST@, 8));
    assert(GEMINI@[0] != OPENAI@[0]);
    assert(GEMINI@[0] != OTHER@[0]);
    assert(OPENAI@[1] != OTHER@[1]);
    assert(GEMINI_KEY_VAR@[0] != OPENAI_KEY_VAR@[0]);
}

/// A model of the registry has an endpoint that is not empty, and its
/// credential is held by one of the two known variables: the one of the
/// provider that runs its endpoint.
pub proof fn lemma_registered_model_resolves(model: Seq<char>)
    requires
        model_url(model).is_some(),
    ensures
        model_url(model).unwrap().len() > 0,
        model_url(model) == Some(GEMINI_URL@) ==> provider_of(model) == GEMINI@
            && credential_variable(model) == Some(GEMINI_KEY_VAR@),
        model_url(model) == Some(OPENAI_URL@) ==> provider_of(model) == OPENAI@
            && credential_variable(model) == Some(OPENAI_KEY_VAR@),
        model_url(model) == Some(GEMINI_URL@) || model_url(model) == Some(OPENAI_URL@),
        credential_variable(model) == Some(GEMINI_KEY_VAR@) || credential_variable(model) == Some(
            OPENAI_KEY_VAR@,
        ),
{
    lemma_endpoints_and_providers();
    lemma_lookup_is_an_entry(model_table(), model);
}

/// What `lookup` finds is the endpoint of an entry with the name asked for.
pub proof fn lemma_lookup_is_an_entry(table: Seq<(Seq<char>, Seq<char>)>, model: Seq<char>)
    requires
        lookup(table, model).is_some(),
    ensures
        exists|i: int|
            0 <= i < table.len() && (#[trigger] table[i]).0 == model && lookup(table, model)
                == Some(table[i].1),
    decreases table.len(),
{
    if table[0].0 == model {
        assert(table[0].0 == model && lookup(table, model) == Some(table[0].1));
    } else {
        lemma_lookup_is_an_entry(table.drop_first(), model);
        let i = choose|i: int|
            0 <= i < table.drop_first().len() && (#[trigger] table.drop_first()[i]).0 == model
                && lookup(table.drop_first(), model) == Some(table.drop_first()[i].1);
        assert(table[i + 1] == table.drop_first()[i]);
    }
}

/// `lookup` finds an endpoint for exactly the names that stand in the table.
pub proof fn lemma_lookup_knows_the_names(table: Seq<(Seq<char>, Seq<char>)>, model: Seq<char>)
    ensures
        lookup(table, model).is_some() <==> names_of(table).contains(model),
    decreases table.len(),
{
    if table.len() > 0 {
        lemma_lookup_knows_the_names(table.drop_first(), model);
        assert(names_of(table)[0] == table[0].0);
        if names_of(table.drop_first()).contains(model) {
            let i = choose|i: int|
                0 <= i < names_of(table.drop_first()).len() && names_of(table.drop_first())[i]
                    == model;
            assert(names_of(table)[i + 1] == model);
        }
        if names_of(table).contains(model) && table[0].0 != model {
            let i = choose|i: int| 0 <= i < names_of(table).len() && names_of(table)[i] == model;
            assert(names_of(table.drop_first())[i - 1] == model);
        }
    }
}

/// A name that is none of the registry's names has no endpoint.
pub proof fn lemma_unregistered_model_is_unknown(model: Seq<char>)
    requires
        !names_of(model_table()).contains(model),
    ensures
        model_url(model).is_none(),
{
    lemma_lookup_knows_the_names(model_table(), model);
}

/// Whether model `a` comes before model `b`: by provider, and by name where
/// the provider is the same.
pub open spec fn model_before(a: ModelConfigView, b: ModelConfigView) -> bool {
    lex_lt(a.provider, b.provider) || (a.provider == b.provider && lex_lt(a.name, b.name))
}

/// Whether `models` are in order by provider and then by name, none twice.
pub open spec fn models_sorted(models: Seq<ModelConfigView>) -> bool {
    forall|i: int, j: int| 0 <= i < j < models.len() ==> model_before(models[i], models[j])
}

/// Whether `groups` are in order by provider, and the models of each group
/// in order by name, none twice.
pub open spec fn groups_sorted(groups: Seq<(Seq<char>, Seq<(Seq<char>, Seq<char>)>)>) -> bool {
    &&& forall|i: int, j: int| 0 <= i < j < groups.len() ==> lex_lt(groups[i].0, groups[j].0)
    &&& forall|g: int, i: int, j: int|
        0 <= g < groups.len() && 0 <= i < j < groups[g].1.len() ==> lex_lt(
            groups[g].1[i].0,
            groups[g].1[j].0,
        )
}

/// The order of models is transitive.
pub proof fn lemma_model_before_transitive(
    a: ModelConfigView,
    b: ModelConfigView,
    c: ModelConfigView,
)
    requires
        model_before(a, b),
        model_before(b, c),
    ensures
        model_before(a, c),
{
    if lex_lt(a.provider, b.provider) && lex_lt(b.provider, c.provider) {
        lemma_lex_lt_transitive(a.provider, b.provider, c.provider);
    }
    if a.provider == b.provider && b.provider == c.provider {
        lemma_lex_lt_transitive(a.name, b.name, c.name);
    }
}

/// Models of which each comes before its neighbour are in order.
proof fn lemma_sorted_from_neighbours(models: Seq<ModelConfigView>, i: int, j: int)
    requires
        forall|k: int|
            0 <= k < models.len() - 1 ==> model_before(#[trigger] models[k], models[k + 1]),
        0 <= i < j < models.len(),
    ensures
        model_before(models[i], models[j]),
    decreases j - i,
{
    if j > i + 1 {
        lemma_sorted_from_neighbours(models, i, j - 1);
        lemma_model_before_transitive(models[i], models[j - 1], models[j]);
    }
}

/// The registry holds eleven models: five that Gemini serves, then six that
/// OpenAI serves, each found under its name with its own endpoint.
pub proof fn lemma_table_providers()
    ensures
        model_table().len() == 11,
        forall|i: int|
            0 <= i < 11 ==> model_url(#[trigger] model_table()[i].0) == Some(model_table()[i].1),
        forall|i: int| 0 <= i < 5 ==> provider_of(#[trigger] model_table()[i].0) == GEMINI@,
        forall|i: int| 5 <= i < 11 ==> provider_of(#[trigger] model_table()[i].0) == OPENAI@,
{
    let table = model_table();
    reveal_strlit("gemini-1.5-flash");
    reveal_strlit("gemini-1.5-pro");
    reveal_strlit("gemini-2.5-flash");
    reveal_strlit("gemini-2.5-flash-lite");
    reveal_strlit("gemini-2.5-pro");
    reveal_strlit("gpt-3.5-turbo");
    reveal_strlit("gpt-3.5-turbo-16k");
    reveal_strlit("gpt-4");
    reveal_strlit("gpt-4-turbo");
    reveal_strlit("gpt-4o");
    reveal_strlit("gpt-4o-mini");
    lemma_endpoints_and_providers();
    assert forall|i: int| 0 <= i < 5 implies (#[trigger] table[i]).0[1] == 'e' && table[i].1
        == GEMINI_URL@ by {}
    assert forall|i: int| 5 <= i < 11 implies (#[trigger] table[i]).0[1] == 'p' && table[i].1
        == OPENAI_URL@ by {}
    assert forall|i: int| 0 <= i < 11 implies model_url(#[trigger] table[i].0) == Some(
        table[i].1,
    ) by {
        assert(names_of(table)[i] == table[i].0);
        lemma_lookup_knows_the_names(table, table[i].0);
        lemma_lookup_is_an_entry(table, table[i].0);
        let j = choose|j: int|
            0 <= j < table.len() && (#[trigger] table[j]).0 == table[i].0 && lookup(
                table,
                table[i].0,
            ) == Some(table[j].1);
        assert(table[j].0[1] == table[i].0[1]);
    }
    assert forall|i: int| 0 <= i < 11 implies provider_of(#[trigger] table[i].0) == (if i < 5 {
        GEMINI@
    } else {
        OPENAI@
    }) by {
        lemma_registered_model_resolves(table[i].0);
    }
}

/// The models of the registry are in order by provider and then by name, so
/// no name stands in it twice.
pub proof fn lemma_all_models_sorted()
    ensures
        models_sorted(all_models()),
        forall|i: int, j: int|
            0 <= i < j < model_table().len() ==> model_table()[i].0 != model_table()[j].0,
{
    let models = all_models();
    lemma_table_providers();
    reveal_strlit("gemini-1.5-flash");
    reveal_strlit("gemini-1.5-pro");
    reveal_strlit("gemini-2.5-flash");
    reveal_strlit("gemini-2.5-flash-lite");
    reveal_strlit("gemini-2.5-pro");
    reveal_strlit("gpt-3.5-turbo");
    reveal_strlit("gpt-3.5-turbo-16k");
    reveal_strlit("gpt-4");
    reveal_strlit("gpt-4-turbo");
    reveal_strlit("gpt-4o");
    reveal_strlit("gpt-4o-mini");
    reveal_strlit("Google Gemini");
    reveal_strlit("OpenAI");
    assert(precedes_at("gemini-1.5-flash"@, "gemini-1.5-pro"@, 11));
    assert(precedes_at("gemini-1.5-pro"@, "gemini-2.5-flash"@, 7));
    assert(precedes_at("gemini-2.5-flash"@, "gemini-2.5-flash-lite"@, 16));
    assert(precedes_at("gemini-2.5-flash-lite"@, "gemini-2.5-pro"@, 11));
    assert(precedes_at(GEMINI@, OPENAI@, 0));
    assert(precedes_at("gpt-3.5-turbo"@, "gpt-3.5-turbo-16k"@, 13));
    assert(precedes_at("gpt-3.5-turbo-16k"@, "gpt-4"@, 4));
    assert(precedes_at("gpt-4"@, "gpt-4-turbo"@, 5));
    assert(precedes_at("gpt-4-turbo"@, "gpt-4o"@, 5));
    assert(precedes_at("gpt-4o"@, "gpt-4o-mini"@, 6));
    assert forall|k: int| 0 <= k < models.len() - 1 implies model_before(
        #[trigger] models[k],
        models[k + 1],
    ) by {
        assert(models[k].name == model_table()[k].0);
        assert(models[k + 1].name == model_table()[k + 1].0);
        assert(models[k].provider == provider_of(model_table()[k].0));
        assert(models[k + 1].provider == provider_of(model_table()[k + 1].0));
    }
    assert forall|i: int, j: int| 0 <= i < j < models.len() implies model_before(
        models[i],
        models[j],
    ) by {
        lemma_sorted_from_neighbours(models, i, j);
    }
    assert forall|i: int, j: int| 0 <= i < j < model_table().len() implies model_table()[i].0
        != model_table()[j].0 by {
        assert(model_before(models[i], models[j]));
        lemma_lex_lt_irreflexive(models[i].name);
        lemma_lex_lt_irreflexive(models[i].provider);
    }
}

/// The providers seen in the first `k` models of the registry.
proof fn lemma_seen_prefix(k: int)
    requires
        0 <= k <= 11,
    ensures
        providers_seen(model_table().take(k)) == (if k == 0 {
            Seq::<Seq<char>>::empty()
        } else if k <= 5 {
            seq![GEMINI@]
        } else {
            seq![GEMINI@, OPENAI@]
        }),
    decreases k,
{
    if k > 0 {
        lemma_seen_prefix(k - 1);
        lemma_table_providers();
        lemma_endpoints_and_providers();
        let upto = model_table().take(k);
        assert(upto.drop_last() =~= model_table().take(k - 1));
        assert(upto.last() == model_table()[k - 1]);
        let before = providers_seen(upto.drop_last());
        if k == 1 {
            assert(providers_seen(upto) =~= seq![GEMINI@]);
        } else if k <= 5 {
            assert(before[0] == GEMINI@);
        } else if k == 6 {
            assert(providers_seen(upto) =~= seq![GEMINI@, OPENAI@]);
        } else {
            assert(before[1] == OPENAI@);
        }
    }
}

/// The models that each provider serves among the first `k` of the registry.
proof fn lemma_models_of_prefix(k: int)
    requires
        0 <= k <= 11,
    ensures
        models_of(model_table().take(k), GEMINI@) == model_table().take(
            if k <= 5 {
                k
            } else {
                5
            },
        ),
        models_of(model_table().take(k), OPENAI@) == model_table().subrange(
            5,
            if k <= 5 {
                5
            } else {
                k
            },
        ),
    decreases k,
{
    lemma_table_providers();
    lemma_endpoints_and_providers();
    if k == 0 {
        assert(model_table().take(0) =~= Seq::empty());
        assert(model_table().subrange(5, 5) =~= Seq::empty());
    } else {
        lemma_models_of_prefix(k - 1);
        let upto = model_table().take(k);
        assert(upto.drop_last() =~= model_table().take(k - 1));
        assert(upto.last() == model_table()[k - 1]);
        if k <= 5 {
            assert(models_of(upto, GEMINI@) =~= model_table().take(k));
        } else {
            assert(models_of(upto, OPENAI@) =~= model_table().subrange(5, k));
        }
    }
}

/// The registry grouped by provider: the five models of Gemini, then the six
/// of OpenAI. The groups are in order by provider, and the models of each in
/// order by name.
pub proof fn lemma_registry_groups()
    ensures
        grouped(model_table()) == seq![
            (GEMINI@, model_table().take(5)),
            (OPENAI@, model_table().subrange(5, 11)),
        ],
        groups_sorted(grouped(model_table())),
{
    let table = model_table();
    let groups = grouped(table);
    lemma_table_providers();
    lemma_seen_prefix(11);
    lemma_models_of_prefix(11);
    assert(table.take(11) =~= table);
    assert(groups =~= seq![(GEMINI@, table.take(5)), (OPENAI@, table.subrange(5, 11))]);
    lemma_all_models_sorted();
    reveal_strlit("Google Gemini");
    reveal_strlit("OpenAI");
    assert(precedes_at(GEMINI@, OPENAI@, 0));
    assert forall|g: int, i: int, j: int|
        0 <= g < groups.len() && 0 <= i < j < groups[g].1.len() implies lex_lt(
        groups[g].1[i].0,
        groups[g].1[j].0,
    ) by {
        let first = if g == 0 {
            i
        } else {
            i + 5
        };
        let second = if g == 0 {
            j
        } else {
            j + 5
        };
        assert(groups[g].1[i] == table[first]);
        assert(groups[g].1[j] == table[second]);
        assert(model_before(all_models()[first], all_models()[second]));
        lemma_lex_lt_irreflexive(provider_of(table[first].0));
    }
}

/// The paragraph of each group stands in the text of the groups.
pub proof fn lemma_groups_text_holds_paragraph(
    groups: Seq<(Seq<char>, Seq<(Seq<char>, Seq<char>)>)>,
    g: int,
)
    requires
        0 <= g < groups.len(),
    ensures
        contains(groups_text(groups), group_paragraph(groups[g])),
    decreases groups.len(),
{
    let empty = Seq::<char>::empty();
    let before = groups_text(groups.drop_last());
    if g == groups.len() - 1 {
        assert(before + group_paragraph(groups.last()) + empty =~= groups_text(groups));
        lemma_contains_middle(before, group_paragraph(groups.last()), empty);
    } else {
        lemma_groups_text_holds_paragraph(groups.drop_last(), g);
        assert(groups.drop_last()[g] == groups[g]);
        assert(empty + before + group_paragraph(groups.last()) =~= groups_text(groups));
        lemma_contains_middle(empty, before, group_paragraph(groups.last()));
        lemma_contains_transitive(groups_text(groups), before, group_paragraph(groups[g]));
    }
}

/// The paragraph of a group names the provider and each model of the group.
pub proof fn lemma_paragraph_names_model(group: (Seq<char>, Seq<(Seq<char>, Seq<char>)>), i: int)
    requires
        0 <= i < group.1.len(),
    ensures
        contains(group_paragraph(group), group.0),
        contains(group_paragraph(group), group.1[i].0),
{
    let empty = Seq::<char>::empty();
    let list = joined(names_of(group.1), ", "@);
    assert("\n\n"@ + group.0 + (": "@ + list) =~= group_paragraph(group));
    lemma_contains_middle("\n\n"@, group.0, ": "@ + list);
    assert(("\n\n"@ + group.0 + ": "@) + list + empty =~= group_paragraph(group));
    lemma_contains_middle("\n\n"@ + group.0 + ": "@, list, empty);
    lemma_joined_contains_part(names_of(group.1), ", "@, i);
    assert(names_of(group.1)[i] == group.1[i].0);
    lemma_contains_transitive(group_paragraph(group), list, group.1[i].0);
}

/// The message about a model that the registry does not know names that
/// model and lists every model of the registry grouped by provider: the
/// paragraph of each provider stands in it, and each model of the registry is
/// named in the paragraph of its own provider.
pub proof fn lemma_error_message_lists_registry(model: Seq<char>, i: int)
    requires
        0 <= i < model_table().len(),
    ensures
        contains(model_error_message(model), model),
        contains(model_error_message(model), model_table()[i].0),
        exists|g: int|
            0 <= g < grouped(model_table()).len() && (#[trigger] grouped(model_table())[g]).0
                == provider_of(model_table()[i].0) && contains(
                model_error_message(model),
                group_paragraph(grouped(model_table())[g]),
            ) && contains(group_paragraph(grouped(model_table())[g]), model_table()[i].0),
{
    let table = model_table();
    let groups = grouped(table);
    let message = model_error_message(model);
    let head = "找不到模型 '"@ + model + "'\n\n支持的模型:"@;
    lemma_table_providers();
    lemma_registry_groups();
    let g = if i < 5 {
        0int
    } else {
        1int
    };
    let at = if i < 5 {
        i
    } else {
        i - 5
    };
    assert(groups[g].1[at] == table[i]);
    assert(groups[g].0 == provider_of(table[i].0));
    lemma_paragraph_names_model(groups[g], at);
    lemma_groups_text_holds_paragraph(groups, g);
    assert(head + groups_text(groups) + MODEL_ERROR_USAGE@ =~= message);
    lemma_contains_middle(head, groups_text(groups), MODEL_ERROR_USAGE@);
    lemma_contains_transitive(message, groups_text(groups), group_paragraph(groups[g]));
    lemma_contains_transitive(message, group_paragraph(groups[g]), table[i].0);
    assert("找不到模型 '"@ + model + ("'\n\n支持的模型:"@ + groups_text(groups)
        + MODEL_ERROR_USAGE@) =~= message);
    lemma_contains_middle(
        "找不到模型 '"@,
        model,
        "'\n\n支持的模型:"@ + groups_text(groups) + MODEL_ERROR_USAGE@,
    );
}

} // verus!
