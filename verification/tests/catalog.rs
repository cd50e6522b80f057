use chitchat::catalog::{
    available_architectures, find_architecture, find_model, select_tokenizer, ArchitectureKind,
    Model, Template, TokenizerSource,
};

fn model(id: &str, filename: &str) -> Model {
    Model {
        name: format!("Model {}", id),
        url: format!("https://models.test/{}", filename),
        filename: filename.to_string(),
        description: String::new(),
        id: id.to_string(),
    }
}

#[test]
fn find_model_gives_the_first_match() {
    let catalog = vec![model("m1", "a.bin"), model("m2", "b.bin"), model("m1", "c.bin")];
    assert_eq!(find_model(&catalog, "m1"), Some(0));
    assert_eq!(find_model(&catalog, "m2"), Some(1));
}

#[test]
fn find_model_of_an_unknown_id_is_none() {
    let catalog = vec![model("m1", "a.bin")];
    assert_eq!(find_model(&catalog, "m3"), None);
    assert_eq!(find_model(&catalog, "M1"), None);
    assert_eq!(find_model(&Vec::new(), "m1"), None);
}

#[test]
fn available_architectures_are_llama_and_gpt2() {
    let architectures = available_architectures();
    assert_eq!(architectures.len(), 2);
    assert_eq!(architectures[0].name, "Llama");
    assert_eq!(architectures[0].id, "llama");
    assert_eq!(architectures[0].inner, ArchitectureKind::Llama);
    assert_eq!(architectures[1].name, "GPT-2");
    assert_eq!(architectures[1].id, "gpt2");
    assert_eq!(architectures[1].inner, ArchitectureKind::Gpt2);
}

#[test]
fn find_architecture_by_id() {
    let architectures = available_architectures();
    assert_eq!(find_architecture(&architectures, "llama"), Some(0));
    assert_eq!(find_architecture(&architectures, "gpt2"), Some(1));
    assert_eq!(find_architecture(&architectures, "Llama"), None);
    assert_eq!(find_architecture(&architectures, ""), None);
}

#[test]
fn select_tokenizer_knows_embedded_only() {
    assert_eq!(select_tokenizer("embedded"), Some(TokenizerSource::Embedded));
    assert_eq!(select_tokenizer("huggingface"), None);
    assert_eq!(select_tokenizer(""), None);
    assert_eq!(select_tokenizer("embedded "), None);
}

#[test]
fn clones_keep_every_field() {
    let entry = model("m1", "a.bin");
    let copy = entry.clone();
    assert_eq!(copy.name, entry.name);
    assert_eq!(copy.url, entry.url);
    assert_eq!(copy.filename, entry.filename);
    assert_eq!(copy.description, entry.description);
    assert_eq!(copy.id, entry.id);
    let template = Template { id: "chat".to_string(), warmup: "Hello".to_string() };
    let copy = template.clone();
    assert_eq!(copy.id, "chat");
    assert_eq!(copy.warmup, "Hello");
    let architecture = available_architectures().remove(1).clone();
    assert_eq!(architecture.id, "gpt2");
    assert_eq!(architecture.inner, ArchitectureKind::Gpt2);
}
