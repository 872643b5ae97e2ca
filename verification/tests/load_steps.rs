use bevy::asset::{AssetLoadError, AssetPath, LoadDirectError};
use kenney_assets::{
    AtlasLayout, FailureKind, KenneySpriteSheetAsset, KenneySpriteSheetAssetLoader,
    KenneySpriteSheetAssetLoaderError, LoadAction, LoadEvent, LoadState, Rect, SubTexture,
};
use std::path::PathBuf;

const DESCRIPTOR: &str = r#"<TextureAtlas imagePath="ships.png">
    <SubTexture name="cruiser.png" x="10" y="20" width="32" height="16"/>
    <SubTexture name="scout.png" x="0" y="36" width="8" height="8"/>
</TextureAtlas>"#;

fn image_failure() -> LoadDirectError {
    LoadDirectError {
        dependency: AssetPath::from("sheets/ships.png"),
        error: AssetLoadError::AssetMetaReadError,
    }
}

fn awaiting_image() -> LoadState {
    LoadState::ImageDimensionsPending { sheet: PathBuf::from("sheets/ships.png") }
}

fn awaiting_descriptor() -> LoadState {
    LoadState::DescriptorParsing { sheet: PathBuf::from("sheets/ships.png"), width: 64, height: 48 }
}

fn all_events() -> Vec<LoadEvent> {
    vec![
        LoadEvent::Requested { descriptor: PathBuf::from("other.xml") },
        LoadEvent::ImageLoaded { width: 1, height: 2 },
        LoadEvent::ImageFailed(image_failure()),
        LoadEvent::DescriptorRead(DESCRIPTOR.to_string()),
        LoadEvent::DescriptorUnreadable(std::io::Error::new(std::io::ErrorKind::Other, "gone")),
    ]
}

#[test]
fn loader_takes_xml_files() {
    assert_eq!(KenneySpriteSheetAssetLoader.extensions(), &["xml"]);
    assert_eq!(KenneySpriteSheetAssetLoader::default(), KenneySpriteSheetAssetLoader);
    assert_eq!(KenneySpriteSheetAssetLoader.layout_label(), "texture_atlas_layout");
}

#[test]
fn image_path_is_the_descriptor_path_with_png() {
    let loader = KenneySpriteSheetAssetLoader;
    assert_eq!(loader.image_path(&PathBuf::from("sheets/ships.xml")), PathBuf::from("sheets/ships.png"));
    assert_eq!(loader.image_path(&PathBuf::from("ships.xml")), PathBuf::from("ships.png"));
    assert_eq!(loader.image_path(&PathBuf::from("a.b/ships.sheet.xml")), PathBuf::from("a.b/ships.sheet.png"));
    assert_eq!(loader.image_path(&PathBuf::from("sheets/ships")), PathBuf::from("sheets/ships.png"));
}

#[test]
fn load_runs_from_request_to_asset() {
    let loader = KenneySpriteSheetAssetLoader;
    let (state, action) =
        loader.step(LoadState::Start, LoadEvent::Requested { descriptor: PathBuf::from("sheets/ships.xml") });
    assert!(matches!(&state, LoadState::ImageDimensionsPending { sheet } if sheet == &PathBuf::from("sheets/ships.png")));
    assert!(matches!(&action, LoadAction::LoadImage { sheet } if sheet == &PathBuf::from("sheets/ships.png")));

    let (state, action) = loader.step(state, LoadEvent::ImageLoaded { width: 64, height: 48 });
    assert!(matches!(
        &state,
        LoadState::DescriptorParsing { sheet, width: 64, height: 48 } if sheet == &PathBuf::from("sheets/ships.png")
    ));
    assert!(matches!(&action, LoadAction::ReadDescriptor { sheet } if sheet == &PathBuf::from("sheets/ships.png")));

    let (state, action) = loader.step(state, LoadEvent::DescriptorRead(DESCRIPTOR.to_string()));
    assert!(matches!(state, LoadState::Assembled));
    let expected = KenneySpriteSheetAsset {
        textures: vec![
            SubTexture { name: "cruiser.png".to_string(), x: 10, y: 20, width: 32, height: 16 },
            SubTexture { name: "scout.png".to_string(), x: 0, y: 36, width: 8, height: 8 },
        ],
        sheet: PathBuf::from("sheets/ships.png"),
        texture_atlas_layout: AtlasLayout {
            width: 64,
            height: 48,
            textures: vec![
                Rect { min_x: 10, min_y: 20, max_x: 42, max_y: 36 },
                Rect { min_x: 0, min_y: 36, max_x: 8, max_y: 44 },
            ],
        },
    };
    match action {
        LoadAction::Register(asset) => assert_eq!(asset, expected),
        other => panic!("{:?}", other),
    }
}

#[test]
fn image_failure_ends_the_load_before_any_parsing() {
    let loader = KenneySpriteSheetAssetLoader;
    let (state, action) = loader.step(awaiting_image(), LoadEvent::ImageFailed(image_failure()));
    assert!(matches!(state, LoadState::Failed(FailureKind::DependencyLoad)));
    match action {
        LoadAction::Fail(KenneySpriteSheetAssetLoaderError::LoadDirect(error)) => {
            assert_eq!(error.dependency, AssetPath::from("sheets/ships.png"));
            assert!(matches!(error.error, AssetLoadError::AssetMetaReadError));
        }
        other => panic!("{:?}", other),
    }
    let (state, action) = loader.step(state, LoadEvent::DescriptorRead(DESCRIPTOR.to_string()));
    assert!(matches!(state, LoadState::Failed(FailureKind::DependencyLoad)));
    assert!(matches!(action, LoadAction::Nothing));
}

#[test]
fn unreadable_descriptor_fails_with_the_io_error() {
    let loader = KenneySpriteSheetAssetLoader;
    let error = std::io::Error::new(std::io::ErrorKind::UnexpectedEof, "cut short");
    let (state, action) = loader.step(awaiting_descriptor(), LoadEvent::DescriptorUnreadable(error));
    assert!(matches!(state, LoadState::Failed(FailureKind::Io)));
    match action {
        LoadAction::Fail(KenneySpriteSheetAssetLoaderError::Io(error)) => {
            assert_eq!(error.kind(), std::io::ErrorKind::UnexpectedEof);
            assert_eq!(error.to_string(), "cut short");
        }
        other => panic!("{:?}", other),
    }
}

#[test]
fn malformed_descriptor_fails_with_the_syntax_error() {
    let loader = KenneySpriteSheetAssetLoader;
    let bad = "<TextureAtlas><SubTexture></TextureAtlas>";
    let (state, action) = loader.step(awaiting_descriptor(), LoadEvent::DescriptorRead(bad.to_string()));
    assert!(matches!(state, LoadState::Failed(FailureKind::DescriptorSyntax)));
    match action {
        LoadAction::Fail(KenneySpriteSheetAssetLoaderError::XmlParse(error)) => {
            assert_eq!(error, roxmltree::Document::parse(bad).unwrap_err());
        }
        other => panic!("{:?}", other),
    }
}

#[test]
fn invalid_region_fails_the_load() {
    let loader = KenneySpriteSheetAssetLoader;
    let bad = r#"<TextureAtlas>
        <SubTexture name="ok" x="1" y="1" width="1" height="1"/>
        <SubTexture name="bad" x="1" y="1" width="1"/>
    </TextureAtlas>"#;
    let (state, action) = loader.step(awaiting_descriptor(), LoadEvent::DescriptorRead(bad.to_string()));
    assert!(matches!(state, LoadState::Failed(FailureKind::InvalidSubTexture)));
    assert!(matches!(action, LoadAction::Fail(KenneySpriteSheetAssetLoaderError::InvalidSubTexture)));
}

#[test]
fn empty_document_is_assembled() {
    let loader = KenneySpriteSheetAssetLoader;
    let (state, action) =
        loader.step(awaiting_descriptor(), LoadEvent::DescriptorRead("<TextureAtlas/>".to_string()));
    assert!(matches!(state, LoadState::Assembled));
    match action {
        LoadAction::Register(asset) => {
            assert!(asset.textures.is_empty());
            assert_eq!(asset.texture_atlas_layout, AtlasLayout { width: 64, height: 48, textures: vec![] });
            assert_eq!(asset.sheet, PathBuf::from("sheets/ships.png"));
        }
        other => panic!("{:?}", other),
    }
}

#[test]
fn ended_loads_ignore_every_event() {
    let loader = KenneySpriteSheetAssetLoader;
    for event in all_events() {
        let (state, action) = loader.step(LoadState::Assembled, event);
        assert!(matches!(state, LoadState::Assembled));
        assert!(matches!(action, LoadAction::Nothing));
    }
    for kind in [
        FailureKind::Io,
        FailureKind::DependencyLoad,
        FailureKind::DescriptorSyntax,
        FailureKind::InvalidSubTexture,
    ] {
        for event in all_events() {
            let (state, action) = loader.step(LoadState::Failed(kind), event);
            assert!(matches!(state, LoadState::Failed(k) if k == kind));
            assert!(matches!(action, LoadAction::Nothing));
        }
    }
}

#[test]
fn events_out_of_turn_change_nothing() {
    let loader = KenneySpriteSheetAssetLoader;
    for (index, event) in all_events().into_iter().enumerate() {
        if index == 0 {
            continue;
        }
        let (state, action) = loader.step(LoadState::Start, event);
        assert!(matches!(state, LoadState::Start));
        assert!(matches!(action, LoadAction::Nothing));
    }
    for (index, event) in all_events().into_iter().enumerate() {
        if index == 1 || index == 2 {
            continue;
        }
        let (state, action) = loader.step(awaiting_image(), event);
        assert!(matches!(&state, LoadState::ImageDimensionsPending { sheet } if sheet == &PathBuf::from("sheets/ships.png")));
        assert!(matches!(action, LoadAction::Nothing));
    }
    for (index, event) in all_events().into_iter().enumerate() {
        if index == 3 || index == 4 {
            continue;
        }
        let (state, action) = loader.step(awaiting_descriptor(), event);
        assert!(matches!(
            &state,
            LoadState::DescriptorParsing { sheet, width: 64, height: 48 } if sheet == &PathBuf::from("sheets/ships.png")
        ));
        assert!(matches!(action, LoadAction::Nothing));
    }
}

#[test]
fn each_error_has_its_kind() {
    assert_eq!(
        KenneySpriteSheetAssetLoaderError::Io(std::io::Error::new(std::io::ErrorKind::Other, "x")).kind(),
        FailureKind::Io
    );
    assert_eq!(
        KenneySpriteSheetAssetLoaderError::LoadDirect(image_failure()).kind(),
        FailureKind::DependencyLoad
    );
    assert_eq!(
        KenneySpriteSheetAssetLoaderError::XmlParse(roxmltree::Document::parse("<").unwrap_err()).kind(),
        FailureKind::DescriptorSyntax
    );
    assert_eq!(KenneySpriteSheetAssetLoaderError::InvalidSubTexture.kind(), FailureKind::InvalidSubTexture);
}
