use newscope::session::{
    card_labels, clip, closing_message, raw_card_summary, greeting, history_start, language_name, parse_refinement, refine_card,
    session_language, AcceptLanguage,
};

#[test]
fn refinement_without_markers_keeps_stored_text() {
    let card = refine_card(
        "Titre enregistré",
        "Résumé enregistré",
        "en",
        "fr",
        Some("Voici une traduction sans aucun marqueur mais assez longue."),
    );
    assert_eq!(card.title, "Titre enregistré");
    assert_eq!(card.summary, "Résumé enregistré");
    assert_eq!(card.lang, "en");
}

#[test]
fn refinement_with_markers_is_used() {
    let card = refine_card(
        "Stored",
        "Raw",
        "en",
        "fr",
        Some("  TITRE: Un titre\nRÉSUMÉ: Un résumé complet de l'article.  "),
    );
    assert_eq!(card.title, "Un titre");
    assert_eq!(card.summary, "Un résumé complet de l'article.");
    assert_eq!(card.lang, "fr");
}

#[test]
fn refinement_failure_keeps_stored_text() {
    let card = refine_card("H", "S", "de", "fr", None);
    assert_eq!((card.title.as_str(), card.summary.as_str(), card.lang.as_str()), ("H", "S", "de"));
}

#[test]
fn refinement_strips_trailing_note() {
    let parsed = parse_refinement("TITLE: A title\nSUMMARY: The body of the summary. (Note: adapted)");
    assert_eq!(parsed, Some(("A title".to_string(), "The body of the summary.".to_string())));
    let parsed = parse_refinement("SUMMARY: body first TITLE: late");
    assert_eq!(parsed, None);
    let parsed = parse_refinement("TITLE:   \nSUMMARY: text");
    assert_eq!(parsed, None);
}

#[test]
fn accept_language_primary_tag() {
    assert_eq!(AcceptLanguage::from_header(Some("fr-FR,fr;q=0.9,en;q=0.8")).0, "fr");
    assert_eq!(AcceptLanguage::from_header(Some("de")).0, "de");
    assert_eq!(AcceptLanguage::from_header(None).0, "en");
}

#[test]
fn session_language_prefers_profile() {
    let h = AcceptLanguage::from_header(Some("es-ES"));
    assert_eq!(session_language(Some("it"), &h), "it");
    assert_eq!(session_language(Some(""), &h), "es");
    assert_eq!(session_language(None, &h), "es");
}

#[test]
fn localized_messages() {
    assert!(greeting("fr").starts_with("👋 Bonjour"));
    assert!(greeting("xx").starts_with("👋 Hello"));
    assert_eq!(closing_message("de"), "Das war das Wichtigste. Möchten Sie ein Thema vertiefen?");
    assert_eq!(language_name("it"), "Italian");
    assert_eq!(language_name("pt"), "English");
}

#[test]
fn clipping_and_history_window() {
    assert_eq!(clip("abcdef", 3), "abc...");
    assert_eq!(clip("abc", 3), "abc");
    assert_eq!(history_start(25), 15);
    assert_eq!(history_start(4), 0);
}

#[test]
fn card_text_and_labels() {
    let bullets = vec!["One.".to_string(), "Two.".to_string()];
    assert_eq!(raw_card_summary(None, &bullets), "One. Two.");
    assert_eq!(raw_card_summary(Some("Details"), &bullets), "Details");
    assert_eq!(card_labels(None), ("Actualité".to_string(), "Unknown".to_string()));
    assert_eq!(card_labels(Some("Le Monde")), ("Le Monde".to_string(), "Le Monde".to_string()));
}
