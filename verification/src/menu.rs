//! The native menu model: every custom menu identifier, and the full menu
//! layout — titles, items, labels, keyboard accelerators — as plain data.
//! The surrounding application interprets this description with its UI
//! toolkit; what the menu contains is decided and verified here.
//!
//! Tab shortcuts follow the usual editor/browser pattern: one accelerator per
//! tab, in visual order.

pub mod analysis_menu;
pub mod file_menu;
pub mod help_menu;
pub mod view_menu;

use vstd::prelude::*;

verus! {

/// A custom menu item: its identifier (delivered to the frontend when the
/// item is activated), its visible label, and its optional accelerator.
pub struct MenuItemSpec {
    /// Identifier delivered on activation.
    pub id: &'static str,
    /// Visible label.
    pub label: &'static str,
    /// Keyboard accelerator, if any.
    pub accelerator: Option<&'static str>,
}

/// A system-predefined menu item whose action the platform supplies.
#[derive(Clone, Copy, Debug, PartialEq, Eq, Structural)]
pub enum PredefinedItem {
    /// Quit the application.
    Quit,
    /// Undo the last edit.
    Undo,
    /// Redo the undone edit.
    Redo,
    /// Cut the selection.
    Cut,
    /// Copy the selection.
    Copy,
    /// Paste the clipboard.
    Paste,
    /// Select everything.
    SelectAll,
    /// Toggle full-screen mode.
    Fullscreen,
}

/// One entry of a submenu.
pub enum MenuElement {
    /// A custom item.
    Item(MenuItemSpec),
    /// A system-predefined item with its visible label.
    Predefined(PredefinedItem, &'static str),
    /// A visual separator.
    Separator,
}

/// A submenu: its title and its entries, in order.
pub struct SubmenuSpec {
    /// Visible title of the submenu.
    pub title: &'static str,
    /// The entries, in order.
    pub items: Vec<MenuElement>,
}

/// All custom menu identifiers the built menu delivers to the frontend, in
/// menu order.
pub fn all_menu_ids() -> (r: Vec<&'static str>)
    ensures
        r@.len() == 23,
        r@[0]@ == file_menu::NEW_PROJECT@,
        r@[1]@ == file_menu::OPEN_PROJECT@,
        r@[2]@ == file_menu::CLOSE_PROJECT@,
        r@[3]@ == file_menu::IMPORT@,
        r@[4]@ == file_menu::EXPORT@,
        r@[5]@ == file_menu::SETTINGS@,
        r@[6]@ == view_menu::CHAPTERS@,
        r@[7]@ == view_menu::ENTITIES@,
        r@[8]@ == view_menu::RELATIONSHIPS@,
        r@[9]@ == view_menu::ALERTS@,
        r@[10]@ == view_menu::TIMELINE@,
        r@[11]@ == view_menu::STYLE@,
        r@[12]@ == view_menu::GLOSSARY@,
        r@[13]@ == view_menu::SUMMARY@,
        r@[14]@ == view_menu::TOGGLE_INSPECTOR@,
        r@[15]@ == view_menu::TOGGLE_SIDEBAR@,
        r@[16]@ == analysis_menu::RUN@,
        r@[17]@ == help_menu::TUTORIAL@,
        r@[18]@ == help_menu::KEYBOARD_SHORTCUTS@,
        r@[19]@ == help_menu::USER_GUIDE@,
        r@[20]@ == help_menu::MANAGE_DATA@,
        r@[21]@ == help_menu::CHECK_UPDATES@,
        r@[22]@ == help_menu::ABOUT@,
{
    let mut r: Vec<&'static str> = Vec::new();
    r.push(file_menu::NEW_PROJECT);
    r.push(file_menu::OPEN_PROJECT);
    r.push(file_menu::CLOSE_PROJECT);
    r.push(file_menu::IMPORT);
    r.push(file_menu::EXPORT);
    r.push(file_menu::SETTINGS);
    r.push(view_menu::CHAPTERS);
    r.push(view_menu::ENTITIES);
    r.push(view_menu::RELATIONSHIPS);
    r.push(view_menu::ALERTS);
    r.push(view_menu::TIMELINE);
    r.push(view_menu::STYLE);
    r.push(view_menu::GLOSSARY);
    r.push(view_menu::SUMMARY);
    r.push(view_menu::TOGGLE_INSPECTOR);
    r.push(view_menu::TOGGLE_SIDEBAR);
    r.push(analysis_menu::RUN);
    r.push(help_menu::TUTORIAL);
    r.push(help_menu::KEYBOARD_SHORTCUTS);
    r.push(help_menu::USER_GUIDE);
    r.push(help_menu::MANAGE_DATA);
    r.push(help_menu::CHECK_UPDATES);
    r.push(help_menu::ABOUT);
    r
}

/// A custom item as one menu element.
fn item(id: &'static str, label: &'static str, accelerator: Option<&'static str>) -> (r:
    MenuElement)
    ensures
        r matches MenuElement::Item(it) && it.id@ == id@ && it.label@ == label@ && (match (
            it.accelerator,
            accelerator,
        ) {
            (Some(a), Some(b)) => a@ == b@,
            (None, None) => true,
            _ => false,
        }),
{
    MenuElement::Item(MenuItemSpec { id, label, accelerator })
}

/// The main menu of the application: five submenus, every entry pinned down.
pub fn create_menu() -> (r: Vec<SubmenuSpec>)
    ensures
        r@.len() == 5,
        r@[0].title@ == "Archivo"@,
        r@[1].title@ == "Edicion"@,
        r@[2].title@ == "Ver"@,
        r@[3].title@ == "Analisis"@,
        r@[4].title@ == "Ayuda"@,
        r@[0].items@.len() == 10,
        r@[0].items@[0] matches MenuElement::Item(it) && it.id@ == file_menu::NEW_PROJECT@
            && it.label@ == "Nuevo proyecto..."@ && (it.accelerator matches Some(a) && a@
            == "CmdOrCtrl+N"@),
        r@[0].items@[1] matches MenuElement::Item(it) && it.id@ == file_menu::OPEN_PROJECT@
            && it.label@ == "Abrir proyecto..."@ && (it.accelerator matches Some(a) && a@
            == "CmdOrCtrl+O"@),
        r@[0].items@[2] matches MenuElement::Item(it) && it.id@ == file_menu::CLOSE_PROJECT@
            && it.label@ == "Cerrar proyecto"@ && (it.accelerator matches Some(a) && a@
            == "CmdOrCtrl+W"@),
        r@[0].items@[3] is Separator,
        r@[0].items@[4] matches MenuElement::Item(it) && it.id@ == file_menu::IMPORT@ && it.label@
            == "Importar manuscrito..."@ && (it.accelerator matches Some(a) && a@
            == "CmdOrCtrl+I"@),
        r@[0].items@[5] matches MenuElement::Item(it) && it.id@ == file_menu::EXPORT@ && it.label@
            == "Exportar informe..."@ && (it.accelerator matches Some(a) && a@ == "CmdOrCtrl+E"@),
        r@[0].items@[6] is Separator,
        r@[0].items@[7] matches MenuElement::Item(it) && it.id@ == file_menu::SETTINGS@
            && it.label@ == "Configuracion..."@ && (it.accelerator matches Some(a) && a@
            == "CmdOrCtrl+,"@),
        r@[0].items@[8] is Separator,
        r@[0].items@[9] matches MenuElement::Predefined(k, l) && k is Quit && l@ == "Salir"@,
        r@[1].items@.len() == 9,
        r@[1].items@[0] matches MenuElement::Predefined(k, l) && k is Undo && l@ == "Deshacer"@,
        r@[1].items@[1] matches MenuElement::Predefined(k, l) && k is Redo && l@ == "Rehacer"@,
        r@[1].items@[2] is Separator,
        r@[1].items@[3] matches MenuElement::Predefined(k, l) && k is Cut && l@ == "Cortar"@,
        r@[1].items@[4] matches MenuElement::Predefined(k, l) && k is Copy && l@ == "Copiar"@,
        r@[1].items@[5] matches MenuElement::Predefined(k, l) && k is Paste && l@ == "Pegar"@,
        r@[1].items@[6] matches MenuElement::Predefined(k, l) && k is SelectAll && l@
            == "Seleccionar todo"@,
        r@[1].items@[7] is Separator,
        r@[1].items@[8] matches MenuElement::Item(it) && it.id@ == "find"@ && it.label@
            == "Buscar"@ && (it.accelerator matches Some(a) && a@ == "CmdOrCtrl+F"@),
        r@[2].items@.len() == 13,
        r@[2].items@[0] matches MenuElement::Item(it) && it.id@ == view_menu::CHAPTERS@
            && it.label@ == "Texto"@ && (it.accelerator matches Some(a) && a@ == "CmdOrCtrl+1"@),
        r@[2].items@[1] matches MenuElement::Item(it) && it.id@ == view_menu::ENTITIES@
            && it.label@ == "Entidades"@ && (it.accelerator matches Some(a) && a@
            == "CmdOrCtrl+2"@),
        r@[2].items@[2] matches MenuElement::Item(it) && it.id@ == view_menu::RELATIONSHIPS@
            && it.label@ == "Relaciones"@ && (it.accelerator matches Some(a) && a@
            == "CmdOrCtrl+3"@),
        r@[2].items@[3] matches MenuElement::Item(it) && it.id@ == view_menu::ALERTS@ && it.label@
            == "Revision"@ && (it.accelerator matches Some(a) && a@ == "CmdOrCtrl+4"@),
        r@[2].items@[4] matches MenuElement::Item(it) && it.id@ == view_menu::TIMELINE@
            && it.label@ == "Cronologia"@ && (it.accelerator matches Some(a) && a@
            == "CmdOrCtrl+5"@),
        r@[2].items@[5] matches MenuElement::Item(it) && it.id@ == view_menu::STYLE@ && it.label@
            == "Escritura"@ && (it.accelerator matches Some(a) && a@ == "CmdOrCtrl+6"@),
        r@[2].items@[6] matches MenuElement::Item(it) && it.id@ == view_menu::GLOSSARY@
            && it.label@ == "Glosario"@ && (it.accelerator matches Some(a) && a@
            == "CmdOrCtrl+7"@),
        r@[2].items@[7] matches MenuElement::Item(it) && it.id@ == view_menu::SUMMARY@
            && it.label@ == "Resumen"@ && (it.accelerator matches Some(a) && a@
            == "CmdOrCtrl+8"@),
        r@[2].items@[8] is Separator,
        r@[2].items@[9] matches MenuElement::Item(it) && it.id@ == view_menu::TOGGLE_SIDEBAR@
            && it.label@ == "Mostrar/ocultar sidebar"@ && (it.accelerator matches Some(a) && a@
            == "CmdOrCtrl+B"@),
        r@[2].items@[10] matches MenuElement::Item(it) && it.id@ == view_menu::TOGGLE_INSPECTOR@
            && it.label@ == "Mostrar/ocultar inspector"@ && (it.accelerator matches Some(a) && a@
            == "CmdOrCtrl+Shift+I"@),
        r@[2].items@[11] is Separator,
        r@[2].items@[12] matches MenuElement::Predefined(k, l) && k is Fullscreen && l@
            == "Pantalla completa"@,
        r@[3].items@.len() == 1,
        r@[3].items@[0] matches MenuElement::Item(it) && it.id@ == analysis_menu::RUN@
            && it.label@ == "Ejecutar analisis"@ && it.accelerator is None,
        r@[4].items@.len() == 8,
        r@[4].items@[0] matches MenuElement::Item(it) && it.id@ == help_menu::TUTORIAL@
            && it.label@ == "Tutorial de bienvenida"@ && it.accelerator is None,
        r@[4].items@[1] matches MenuElement::Item(it) && it.id@ == help_menu::KEYBOARD_SHORTCUTS@
            && it.label@ == "Atajos de teclado"@ && (it.accelerator matches Some(a) && a@
            == "CmdOrCtrl+/"@),
        r@[4].items@[2] matches MenuElement::Item(it) && it.id@ == help_menu::USER_GUIDE@
            && it.label@ == "Guia de usuario"@ && (it.accelerator matches Some(a) && a@ == "F1"@),
        r@[4].items@[3] is Separator,
        r@[4].items@[4] matches MenuElement::Item(it) && it.id@ == help_menu::MANAGE_DATA@
            && it.label@ == "Gestionar datos..."@ && it.accelerator is None,
        r@[4].items@[5] is Separator,
        r@[4].items@[6] matches MenuElement::Item(it) && it.id@ == help_menu::CHECK_UPDATES@
            && it.label@ == "Buscar actualizaciones..."@ && it.accelerator is None,
        r@[4].items@[7] matches MenuElement::Item(it) && it.id@ == help_menu::ABOUT@ && it.label@
            == "Acerca de Narrative Assistant"@ && it.accelerator is None,
{
    let mut file_items: Vec<MenuElement> = Vec::new();
    file_items.push(item(file_menu::NEW_PROJECT, "Nuevo proyecto...", Some("CmdOrCtrl+N")));
    file_items.push(item(file_menu::OPEN_PROJECT, "Abrir proyecto...", Some("CmdOrCtrl+O")));
    file_items.push(item(file_menu::CLOSE_PROJECT, "Cerrar proyecto", Some("CmdOrCtrl+W")));
    file_items.push(MenuElement::Separator);
    file_items.push(item(file_menu::IMPORT, "Importar manuscrito...", Some("CmdOrCtrl+I")));
    file_items.push(item(file_menu::EXPORT, "Exportar informe...", Some("CmdOrCtrl+E")));
    file_items.push(MenuElement::Separator);
    file_items.push(item(file_menu::SETTINGS, "Configuracion...", Some("CmdOrCtrl+,")));
    file_items.push(MenuElement::Separator);
    file_items.push(MenuElement::Predefined(PredefinedItem::Quit, "Salir"));

    let mut edit_items: Vec<MenuElement> = Vec::new();
    edit_items.push(MenuElement::Predefined(PredefinedItem::Undo, "Deshacer"));
    edit_items.push(MenuElement::Predefined(PredefinedItem::Redo, "Rehacer"));
    edit_items.push(MenuElement::Separator);
    edit_items.push(MenuElement::Predefined(PredefinedItem::Cut, "Cortar"));
    edit_items.push(MenuElement::Predefined(PredefinedItem::Copy, "Copiar"));
    edit_items.push(MenuElement::Predefined(PredefinedItem::Paste, "Pegar"));
    edit_items.push(MenuElement::Predefined(PredefinedItem::SelectAll, "Seleccionar todo"));
    edit_items.push(MenuElement::Separator);
    edit_items.push(item("find", "Buscar", Some("CmdOrCtrl+F")));

    let mut view_items: Vec<MenuElement> = Vec::new();
    view_items.push(item(view_menu::CHAPTERS, "Texto", Some("CmdOrCtrl+1")));
    view_items.push(item(view_menu::ENTITIES, "Entidades", Some("CmdOrCtrl+2")));
    view_items.push(item(view_menu::RELATIONSHIPS, "Relaciones", Some("CmdOrCtrl+3")));
    view_items.push(item(view_menu::ALERTS, "Revision", Some("CmdOrCtrl+4")));
    view_items.push(item(view_menu::TIMELINE, "Cronologia", Some("CmdOrCtrl+5")));
    view_items.push(item(view_menu::STYLE, "Escritura", Some("CmdOrCtrl+6")));
    view_items.push(item(view_menu::GLOSSARY, "Glosario", Some("CmdOrCtrl+7")));
    view_items.push(item(view_menu::SUMMARY, "Resumen", Some("CmdOrCtrl+8")));
    view_items.push(MenuElement::Separator);
    view_items.push(item(view_menu::TOGGLE_SIDEBAR, "Mostrar/ocultar sidebar", Some("CmdOrCtrl+B")));
    view_items.push(
        item(view_menu::TOGGLE_INSPECTOR, "Mostrar/ocultar inspector", Some("CmdOrCtrl+Shift+I")),
    );
    view_items.push(MenuElement::Separator);
    view_items.push(MenuElement::Predefined(PredefinedItem::Fullscreen, "Pantalla completa"));

    let mut analysis_items: Vec<MenuElement> = Vec::new();
    analysis_items.push(item(analysis_menu::RUN, "Ejecutar analisis", None));

    let mut help_items: Vec<MenuElement> = Vec::new();
    help_items.push(item(help_menu::TUTORIAL, "Tutorial de bienvenida", None));
    help_items.push(item(help_menu::KEYBOARD_SHORTCUTS, "Atajos de teclado", Some("CmdOrCtrl+/")));
    help_items.push(item(help_menu::USER_GUIDE, "Guia de usuario", Some("F1")));
    help_items.push(MenuElement::Separator);
    help_items.push(item(help_menu::MANAGE_DATA, "Gestionar datos...", None));
    help_items.push(MenuElement::Separator);
    help_items.push(item(help_menu::CHECK_UPDATES, "Buscar actualizaciones...", None));
    help_items.push(item(help_menu::ABOUT, "Acerca de Narrative Assistant", None));

    let mut r: Vec<SubmenuSpec> = Vec::new();
    r.push(SubmenuSpec { title: "Archivo", items: file_items });
    r.push(SubmenuSpec { title: "Edicion", items: edit_items });
    r.push(SubmenuSpec { title: "Ver", items: view_items });
    r.push(SubmenuSpec { title: "Analisis", items: analysis_items });
    r.push(SubmenuSpec { title: "Ayuda", items: help_items });
    r
}

} // verus!
