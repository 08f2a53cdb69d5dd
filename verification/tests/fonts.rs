use invoicely::error::RenderError;
use invoicely::fonts::{bold_font_names, font_names, FontManager};
use printpdf::{BuiltinFont, ParsedFont, PdfDocument};
use std::cell::RefCell;

fn font_file() -> Vec<u8> {
    BuiltinFont::Helvetica.get_subset_font().bytes
}

fn other_font_file() -> Vec<u8> {
    BuiltinFont::Courier.get_subset_font().bytes
}

fn parsed(bytes: &[u8]) -> ParsedFont {
    ParsedFont::from_bytes(bytes, 0, &mut Vec::new()).unwrap()
}

#[test]
fn candidates_are_listed_in_order_of_preference() {
    assert_eq!(
        font_names(),
        vec![
            "Helvetica",
            "Arial",
            "DejaVu Sans",
            "Liberation Sans",
            "FreeSans",
            "Ubuntu",
            "Noto Sans"
        ]
    );
    let bold: Vec<String> = font_names().iter().map(|name| format!("{}-Bold", name)).collect();
    assert_eq!(bold_font_names(), bold);
}

#[test]
fn first_font_that_can_be_read_is_taken() {
    let asked = RefCell::new(Vec::new());
    let read = |name: &str| {
        asked.borrow_mut().push(name.to_string());
        match name {
            "Arial" | "Ubuntu" => Some(font_file()),
            _ => None,
        }
    };
    let mut doc = PdfDocument::new("fonts");
    let found = FontManager::load_system_font(&mut doc, &font_names(), &read).unwrap();
    assert_eq!(*asked.borrow(), vec!["Helvetica", "Arial"]);
    assert_eq!(doc.resources.fonts.map.len(), 1);
    assert!(doc.resources.fonts.map.contains_key(&found));
}

#[test]
fn handle_is_that_of_the_first_font_that_loads() {
    assert_ne!(parsed(&font_file()), parsed(&other_font_file()));
    let read = |name: &str| match name {
        "Two" => Some(font_file()),
        "Three" | "Four" => Some(other_font_file()),
        _ => None,
    };
    let mut doc = PdfDocument::new("fonts");
    let names = vec!["One", "Two", "Three", "Four"];
    let found = FontManager::load_system_font(&mut doc, &names, &read).unwrap();
    assert_eq!(doc.resources.fonts.map.len(), 1);
    assert_eq!(doc.resources.fonts.map[&found], parsed(&font_file()));

    let later = vec!["Four", "Two"];
    let found = FontManager::load_system_font(&mut doc, &later, &read).unwrap();
    assert_eq!(doc.resources.fonts.map.len(), 2);
    assert_eq!(doc.resources.fonts.map[&found], parsed(&other_font_file()));
}

#[test]
fn regular_and_bold_handles_are_not_swapped() {
    let read = |name: &str| match name {
        "Ubuntu" => Some(font_file()),
        "FreeSans-Bold" => Some(other_font_file()),
        _ => None,
    };
    let mut doc = PdfDocument::new("fonts");
    let fonts = FontManager::initialize(&mut doc, &read).unwrap();
    assert_eq!(doc.resources.fonts.map[&fonts.regular_font()], parsed(&font_file()));
    assert_eq!(doc.resources.fonts.map[&fonts.bold_font()], parsed(&other_font_file()));
}

#[test]
fn files_that_are_no_fonts_are_passed_over() {
    let asked = RefCell::new(Vec::new());
    let read = |name: &str| {
        asked.borrow_mut().push(name.to_string());
        match name {
            "One" => Some(vec![1, 2, 3]),
            "Two" => Some(Vec::new()),
            "Three" => Some(font_file()),
            _ => None,
        }
    };
    let mut doc = PdfDocument::new("fonts");
    let names = vec!["Zero", "One", "Two", "Three", "Four"];
    let found = FontManager::load_system_font(&mut doc, &names, &read).unwrap();
    assert_eq!(*asked.borrow(), vec!["Zero", "One", "Two", "Three"]);
    assert!(doc.resources.fonts.map.contains_key(&found));
}

#[test]
fn no_font_among_the_candidates_is_an_error_that_names_them() {
    let read = |name: &str| if name == "Two" { Some(vec![0; 16]) } else { None };
    let mut doc = PdfDocument::new("fonts");
    let names = vec!["One", "Two"];
    assert_eq!(
        FontManager::load_system_font(&mut doc, &names, &read),
        Err(RenderError::FontUnavailable { tried: vec!["One".to_string(), "Two".to_string()] })
    );
    assert_eq!(
        FontManager::load_system_font(&mut doc, &Vec::new(), &read),
        Err(RenderError::FontUnavailable { tried: Vec::new() })
    );
    assert_eq!(doc, PdfDocument::new("fonts"));
}

#[test]
fn initialize_finds_the_regular_and_the_bold_font() {
    let asked = RefCell::new(Vec::new());
    let read = |name: &str| {
        asked.borrow_mut().push(name.to_string());
        match name {
            "DejaVu Sans" | "Helvetica-Bold" => Some(font_file()),
            _ => None,
        }
    };
    let mut doc = PdfDocument::new("fonts");
    let fonts = FontManager::initialize(&mut doc, &read).unwrap();
    assert_eq!(*asked.borrow(), vec!["Helvetica", "Arial", "DejaVu Sans", "Helvetica-Bold"]);
    assert_ne!(fonts.regular_font(), fonts.bold_font());
    let registered: Vec<_> = doc.resources.fonts.map.keys().cloned().collect();
    assert_eq!(registered.len(), 2);
    assert!(registered.contains(&fonts.regular_font()));
    assert!(registered.contains(&fonts.bold_font()));
    assert!(doc.resources.xobjects.map.is_empty());
    assert_eq!(doc.metadata.info.document_title, "fonts");
}

#[test]
fn initialize_fails_without_a_regular_font() {
    let asked = RefCell::new(0);
    let read = |name: &str| {
        *asked.borrow_mut() += 1;
        if name.ends_with("-Bold") {
            Some(font_file())
        } else {
            None
        }
    };
    let mut doc = PdfDocument::new("fonts");
    let tried: Vec<String> = font_names().iter().map(|name| name.to_string()).collect();
    match FontManager::initialize(&mut doc, &read) {
        Err(error) => assert_eq!(error, RenderError::FontUnavailable { tried }),
        Ok(_) => panic!("no regular font can be read"),
    }
    assert_eq!(*asked.borrow(), 7);
    assert!(doc.resources.fonts.map.is_empty());
}

#[test]
fn initialize_fails_without_a_bold_font() {
    let read = |name: &str| if name == "Noto Sans" { Some(font_file()) } else { None };
    let mut doc = PdfDocument::new("fonts");
    let tried: Vec<String> = bold_font_names().iter().map(|name| name.to_string()).collect();
    match FontManager::initialize(&mut doc, &read) {
        Err(error) => assert_eq!(error, RenderError::FontUnavailable { tried }),
        Ok(_) => panic!("no bold font can be read"),
    }
    assert_eq!(doc.resources.fonts.map.len(), 1);
}
