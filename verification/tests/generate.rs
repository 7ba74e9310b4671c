use rune::generate::{buf_match, keywords, punctuations, Keyword, Punct, Token};

fn keyword(variant: &str, keyword: &str) -> Token {
    Token::Keyword(Keyword {
        variant: variant.to_string(),
        doc: format!("The `{}` keyword", keyword),
        keyword: keyword.to_string(),
    })
}

fn punct(variant: &str, punct: &str) -> Token {
    Token::Punct(Punct {
        variant: variant.to_string(),
        doc: format!("`{}`", punct),
        punct: punct.to_string(),
    })
}

fn table() -> Vec<Token> {
    vec![
        keyword("Fn", "fn"),
        punct("Add", "+"),
        keyword("Use", "use"),
        punct("DotDotEq", "..="),
        punct("ColonColon", "::"),
    ]
}

#[test]
fn keywords_in_table_order() {
    let tokens = table();
    let ks = keywords(&tokens);
    let names: Vec<&str> = ks.iter().map(|k| k.keyword.as_str()).collect();
    assert_eq!(names, vec!["fn", "use"]);
}

#[test]
fn punctuations_in_table_order() {
    let tokens = table();
    let ps = punctuations(&tokens);
    let names: Vec<&str> = ps.iter().map(|p| p.variant.as_str()).collect();
    assert_eq!(names, vec!["Add", "DotDotEq", "ColonColon"]);
}

#[test]
fn keywords_and_punctuations_partition_the_table() {
    let tokens = table();
    assert_eq!(keywords(&tokens).len() + punctuations(&tokens).len(), tokens.len());
    let empty: Vec<Token> = Vec::new();
    assert!(keywords(&empty).is_empty());
    assert!(punctuations(&empty).is_empty());
}

#[test]
fn token_doc_and_variant() {
    let tokens = table();
    assert_eq!(tokens[0].variant(), "Fn");
    assert_eq!(tokens[0].doc(), "The `fn` keyword");
    assert_eq!(tokens[1].variant(), "Add");
    assert_eq!(tokens[1].doc(), "`+`");
}

#[test]
fn punct_buffer_is_padded_to_three() {
    assert_eq!(buf_match("+"), vec!['+', '\0', '\0']);
    assert_eq!(buf_match("::"), vec![':', ':', '\0']);
    assert_eq!(buf_match("..="), vec!['.', '.', '=']);
    assert_eq!(buf_match(""), vec!['\0', '\0', '\0']);
}
