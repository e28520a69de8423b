//! The languages and the message catalog: for each language, one text for
//! each of a fixed set of messages.

use vstd::prelude::*;

verus! {

/// A language that the catalog covers.
#[derive(Clone, Copy, Debug, PartialEq, Eq, Structural)]
pub enum Lang {
    Ar,
    En,
    Es,
    Fr,
    Ja,
    Ru,
    Zh,
}

/// The texts of one language. `%s` in a text marks where a name is filled in.
#[derive(Clone, Copy, Debug)]
pub struct Messages {
    pub not_git_repo: &'static str,
    pub generating_branch: &'static str,
    pub what_to_implement: &'static str,
    pub enter_desc: &'static str,
    pub select_branch: &'static str,
    pub enter_manually: &'static str,
    pub regenerate: &'static str,
    pub branch_name: &'static str,
    pub feedback: &'static str,
    pub enter_branch_name: &'static str,
    pub enter_feedback: &'static str,
    pub wt_already_exists: &'static str,
    pub creating_wt: &'static str,
    pub wt_created: &'static str,
    pub wt_created_existing: &'static str,
    pub wt_create_failed: &'static str,
    pub path: &'static str,
    pub branch: &'static str,
    pub to_switch: &'static str,
    pub list_title: &'static str,
    pub no_wt_to_remove: &'static str,
    pub select_wt_remove: &'static str,
    pub confirm_delete: &'static str,
    pub cancelled: &'static str,
    pub wt_removed: &'static str,
    pub wt_remove_failed: &'static str,
    pub force_remove: &'static str,
    pub wt_force_removed: &'static str,
    pub force_remove_failed: &'static str,
    pub delete_branch: &'static str,
    pub branch_deleted: &'static str,
    pub force_delete_branch: &'static str,
    pub branch_force_deleted: &'static str,
    pub no_wt_to_switch: &'static str,
    pub select_wt_switch: &'static str,
    pub switching_to: &'static str,
    pub menu_title: &'static str,
    pub menu_create: &'static str,
    pub menu_list: &'static str,
    pub menu_remove: &'static str,
    pub menu_switch: &'static str,
    pub menu_help: &'static str,
    pub menu_hint: &'static str,
    pub help_usage: &'static str,
    pub help_commands: &'static str,
    pub help_examples: &'static str,
    pub help_notes: &'static str,
    pub help_create_desc: &'static str,
    pub help_list_desc: &'static str,
    pub help_remove_desc: &'static str,
    pub help_switch_desc: &'static str,
    pub help_help_desc: &'static str,
    pub help_note_path: &'static str,
    pub help_note_switch: &'static str,
    pub help_direct_desc: &'static str,
    pub model_current: &'static str,
    pub model_select: &'static str,
    pub model_set: &'static str,
    pub model_none: &'static str,
    pub settings_title: &'static str,
    pub settings_lang: &'static str,
    pub settings_model: &'static str,
    pub menu_settings: &'static str,
    pub help_settings_desc: &'static str,
    pub lang_current: &'static str,
    pub lang_set: &'static str,
    pub settings_reset: &'static str,
    pub settings_reset_done: &'static str,
}

/// The languages in the order of their codes, which is the order in which
/// they are offered.
pub open spec fn all_langs() -> Seq<Lang> {
    seq![Lang::Ar, Lang::En, Lang::Es, Lang::Fr, Lang::Ja, Lang::Ru, Lang::Zh]
}

impl Lang {
    /// The two-letter code of the language.
    pub open spec fn code_text(self) -> Seq<char> {
        match self {
            Lang::Ar => "ar"@,
            Lang::En => "en"@,
            Lang::Es => "es"@,
            Lang::Fr => "fr"@,
            Lang::Ja => "ja"@,
            Lang::Ru => "ru"@,
            Lang::Zh => "zh"@,
        }
    }

    /// The language's own name for itself.
    pub open spec fn name_text(self) -> Seq<char> {
        match self {
            Lang::Ar => "العربية"@,
            Lang::En => "English"@,
            Lang::Es => "Español"@,
            Lang::Fr => "Français"@,
            Lang::Ja => "日本語"@,
            Lang::Ru => "Русский"@,
            Lang::Zh => "中文"@,
        }
    }

    /// The two-letter code of the language.
    pub fn code(self) -> (code: &'static str)
        ensures
            code@ == self.code_text(),
    {
        match self {
            Lang::Ar => "ar",
            Lang::En => "en",
            Lang::Es => "es",
            Lang::Fr => "fr",
            Lang::Ja => "ja",
            Lang::Ru => "ru",
            Lang::Zh => "zh",
        }
    }

    /// The language's own name for itself.
    pub fn name(self) -> (name: &'static str)
        ensures
            name@ == self.name_text(),
    {
        match self {
            Lang::Ar => "العربية",
            Lang::En => "English",
            Lang::Es => "Español",
            Lang::Fr => "Français",
            Lang::Ja => "日本語",
            Lang::Ru => "Русский",
            Lang::Zh => "中文",
        }
    }
}

/// All languages, in the order in which they are offered.
pub fn langs() -> (all: Vec<Lang>)
    ensures
        all@ == all_langs(),
{
    let mut all: Vec<Lang> = Vec::new();
    all.push(Lang::Ar);
    all.push(Lang::En);
    all.push(Lang::Es);
    all.push(Lang::Fr);
    all.push(Lang::Ja);
    all.push(Lang::Ru);
    all.push(Lang::Zh);
    all
}

/// Each language's code beside the language, in the order of the codes.
pub fn lang_codes() -> (codes: Vec<(&'static str, Lang)>)
    ensures
        codes.len() == all_langs().len(),
        forall|i: int|
            0 <= i < codes.len() ==> codes[i].1 == all_langs()[i] && codes[i].0@
                == all_langs()[i].code_text(),
{
    let all = langs();
    let mut codes: Vec<(&'static str, Lang)> = Vec::new();
    let mut i: usize = 0;
    while i < all.len()
        invariant
            all@ == all_langs(),
            i <= all.len(),
            codes.len() == i,
            forall|j: int|
                0 <= j < i ==> codes[j].1 == all_langs()[j] && codes[j].0@
                    == all_langs()[j].code_text(),
        decreases all.len() - i,
    {
        codes.push((all[i].code(), all[i]));
        i += 1;
    }
    codes
}

/// Each language's name, in the order of the codes.
pub fn lang_names() -> (names: Vec<&'static str>)
    ensures
        names.len() == all_langs().len(),
        forall|i: int| 0 <= i < names.len() ==> names[i]@ == all_langs()[i].name_text(),
{
    let all = langs();
    let mut names: Vec<&'static str> = Vec::new();
    let mut i: usize = 0;
    while i < all.len()
        invariant
            all@ == all_langs(),
            i <= all.len(),
            names.len() == i,
            forall|j: int| 0 <= j < i ==> names[j]@ == all_langs()[j].name_text(),
        decreases all.len() - i,
    {
        names.push(all[i].name());
        i += 1;
    }
    names
}

/// The Arabic texts.
pub open spec fn arabic_catalog() -> Messages {
    Messages {
        not_git_repo: "هذا ليس مستودع git",
        generating_branch: "جارٍ توليد اسم للفرع...",
        what_to_implement: "ماذا تريد أن تنفّذ؟",
        enter_desc: "يرجى إدخال وصف",
        select_branch: "اختر اسم الفرع",
        enter_manually: "إدخال يدوي",
        regenerate: "إعادة التوليد مع ملاحظات",
        branch_name: "اسم الفرع:",
        feedback: "ملاحظات:",
        enter_branch_name: "يرجى إدخال اسم الفرع",
        enter_feedback: "يرجى إدخال ملاحظات",
        wt_already_exists: "شجرة العمل موجودة بالفعل",
        creating_wt: "جارٍ إنشاء شجرة العمل...",
        wt_created: "تم إنشاء شجرة العمل",
        wt_created_existing: "تم إنشاء شجرة العمل من فرع موجود",
        wt_create_failed: "فشل إنشاء شجرة العمل",
        path: "المسار:",
        branch: "الفرع:",
        to_switch: "للتبديل إليها نفّذ",
        list_title: "أشجار العمل",
        no_wt_to_remove: "لا توجد أشجار عمل للحذف",
        select_wt_remove: "اختر شجرة العمل المراد حذفها",
        confirm_delete: "هل تريد حذف شجرة العمل هذه؟",
        cancelled: "تم الإلغاء",
        wt_removed: "تم حذف شجرة العمل",
        wt_remove_failed: "فشل حذف شجرة العمل",
        force_remove: "هل تريد الحذف بالقوة؟",
        wt_force_removed: "تم حذف شجرة العمل بالقوة",
        force_remove_failed: "فشل حذف شجرة العمل بالقوة",
        delete_branch: "هل تريد حذف الفرع '%s' أيضًا؟",
        branch_deleted: "تم حذف الفرع",
        force_delete_branch: "الفرع غير مدمج بالكامل. هل تريد الحذف بالقوة؟",
        branch_force_deleted: "تم حذف الفرع بالقوة",
        no_wt_to_switch: "لا توجد أشجار عمل للتبديل إليها",
        select_wt_switch: "اختر شجرة العمل للتبديل إليها",
        switching_to: "جارٍ التبديل إلى %s",
        menu_title: "shuu - مدير أشجار عمل Git",
        menu_create: "إنشاء شجرة عمل",
        menu_list: "عرض أشجار العمل",
        menu_remove: "حذف شجرة عمل",
        menu_switch: "تبديل شجرة العمل",
        menu_help: "مساعدة",
        menu_hint: "\u{2191}\u{2193}: تحريك  Enter: اختيار  q: إلغاء",
        help_usage: "الاستخدام",
        help_commands: "الأوامر",
        help_examples: "أمثلة",
        help_notes: "ملاحظات",
        help_create_desc: "إنشاء شجرة عمل جديدة",
        help_list_desc: "عرض أشجار العمل",
        help_remove_desc: "حذف شجرة عمل",
        help_switch_desc: "التبديل إلى شجرة عمل",
        help_help_desc: "عرض هذه المساعدة",
        help_note_path: "تُنشأ أشجار العمل في ../<repo>-worktrees/",
        help_note_switch: "يتطلب التبديل تكامل الصدفة",
        help_direct_desc: "إنشاء شجرة عمل من وصف",
        model_current: "النموذج الحالي",
        model_select: "اختر نموذجًا",
        model_set: "تم تعيين النموذج إلى %s",
        model_none: "(غير معيّن)",
        settings_title: "الإعدادات",
        settings_lang: "اللغة",
        settings_model: "النموذج",
        menu_settings: "الإعدادات",
        help_settings_desc: "تغيير اللغة والنموذج",
        lang_current: "اللغة الحالية",
        lang_set: "تم تعيين اللغة إلى %s",
        settings_reset: "إعادة تعيين الإعدادات",
        settings_reset_done: "تمت إعادة تعيين الإعدادات",
    }
}

/// The English texts.
pub open spec fn english_catalog() -> Messages {
    Messages {
        not_git_repo: "Not a git repository",
        generating_branch: "Generating a branch name...",
        what_to_implement: "What do you want to implement?",
        enter_desc: "Please enter a description",
        select_branch: "Select a branch name",
        enter_manually: "Enter manually",
        regenerate: "Regenerate with feedback",
        branch_name: "Branch name:",
        feedback: "Feedback:",
        enter_branch_name: "Please enter a branch name",
        enter_feedback: "Please enter feedback",
        wt_already_exists: "Worktree already exists",
        creating_wt: "Creating worktree...",
        wt_created: "Worktree created",
        wt_created_existing: "Worktree created from an existing branch",
        wt_create_failed: "Failed to create the worktree",
        path: "Path:",
        branch: "Branch:",
        to_switch: "To switch to it, run",
        list_title: "Worktrees",
        no_wt_to_remove: "No worktrees to remove",
        select_wt_remove: "Select a worktree to remove",
        confirm_delete: "Delete this worktree?",
        cancelled: "Cancelled",
        wt_removed: "Worktree removed",
        wt_remove_failed: "Failed to remove the worktree",
        force_remove: "Force removal?",
        wt_force_removed: "Worktree removed by force",
        force_remove_failed: "Failed to remove the worktree by force",
        delete_branch: "Delete the branch '%s' as well?",
        branch_deleted: "Branch deleted",
        force_delete_branch: "The branch is not fully merged. Force deletion?",
        branch_force_deleted: "Branch deleted by force",
        no_wt_to_switch: "No worktrees to switch to",
        select_wt_switch: "Select a worktree to switch to",
        switching_to: "Switching to %s",
        menu_title: "shuu - Git Worktree Manager",
        menu_create: "Create a worktree",
        menu_list: "List worktrees",
        menu_remove: "Remove a worktree",
        menu_switch: "Switch worktree",
        menu_help: "Help",
        menu_hint: "\u{2191}\u{2193}: move  Enter: select  q: cancel",
        help_usage: "Usage",
        help_commands: "Commands",
        help_examples: "Examples",
        help_notes: "Notes",
        help_create_desc: "Create a new worktree",
        help_list_desc: "List worktrees",
        help_remove_desc: "Remove a worktree",
        help_switch_desc: "Switch to a worktree",
        help_help_desc: "Show this help",
        help_note_path: "Worktrees are created in ../<repo>-worktrees/",
        help_note_switch: "Switching needs the shell integration",
        help_direct_desc: "Create a worktree from a description",
        model_current: "Current model",
        model_select: "Select a model",
        model_set: "Model set to %s",
        model_none: "(not set)",
        settings_title: "Settings",
        settings_lang: "Language",
        settings_model: "Model",
        menu_settings: "Settings",
        help_settings_desc: "Change the language and the model",
        lang_current: "Current language",
        lang_set: "Language set to %s",
        settings_reset: "Reset settings",
        settings_reset_done: "Settings have been reset",
    }
}

/// The Spanish texts.
pub open spec fn spanish_catalog() -> Messages {
    Messages {
        not_git_repo: "No es un repositorio git",
        generating_branch: "Generando un nombre de rama...",
        what_to_implement: "¿Qué quieres implementar?",
        enter_desc: "Introduce una descripción",
        select_branch: "Elige un nombre de rama",
        enter_manually: "Introducir manualmente",
        regenerate: "Regenerar con comentarios",
        branch_name: "Nombre de la rama:",
        feedback: "Comentarios:",
        enter_branch_name: "Introduce un nombre de rama",
        enter_feedback: "Introduce un comentario",
        wt_already_exists: "El worktree ya existe",
        creating_wt: "Creando el worktree...",
        wt_created: "Worktree creado",
        wt_created_existing: "Worktree creado a partir de una rama existente",
        wt_create_failed: "No se pudo crear el worktree",
        path: "Ruta:",
        branch: "Rama:",
        to_switch: "Para cambiar a él, ejecuta",
        list_title: "Worktrees",
        no_wt_to_remove: "No hay worktrees que eliminar",
        select_wt_remove: "Elige un worktree para eliminar",
        confirm_delete: "¿Eliminar este worktree?",
        cancelled: "Cancelado",
        wt_removed: "Worktree eliminado",
        wt_remove_failed: "No se pudo eliminar el worktree",
        force_remove: "¿Forzar la eliminación?",
        wt_force_removed: "Worktree eliminado a la fuerza",
        force_remove_failed: "No se pudo forzar la eliminación del worktree",
        delete_branch: "¿Eliminar también la rama '%s'?",
        branch_deleted: "Rama eliminada",
        force_delete_branch: "La rama no está completamente fusionada. ¿Forzar la eliminación?",
        branch_force_deleted: "Rama eliminada a la fuerza",
        no_wt_to_switch: "No hay worktrees a los que cambiar",
        select_wt_switch: "Elige un worktree al que cambiar",
        switching_to: "Cambiando a %s",
        menu_title: "shuu - Gestor de worktrees de Git",
        menu_create: "Crear un worktree",
        menu_list: "Listar los worktrees",
        menu_remove: "Eliminar un worktree",
        menu_switch: "Cambiar de worktree",
        menu_help: "Ayuda",
        menu_hint: "\u{2191}\u{2193}: mover  Enter: elegir  q: cancelar",
        help_usage: "Uso",
        help_commands: "Comandos",
        help_examples: "Ejemplos",
        help_notes: "Notas",
        help_create_desc: "Crear un worktree nuevo",
        help_list_desc: "Listar los worktrees",
        help_remove_desc: "Eliminar un worktree",
        help_switch_desc: "Cambiar a un worktree",
        help_help_desc: "Mostrar esta ayuda",
        help_note_path: "Los worktrees se crean en ../<repo>-worktrees/",
        help_note_switch: "Cambiar requiere la integración con el shell",
        help_direct_desc: "Crear un worktree a partir de una descripción",
        model_current: "Modelo actual",
        model_select: "Elige un modelo",
        model_set: "Modelo establecido en %s",
        model_none: "(sin definir)",
        settings_title: "Ajustes",
        settings_lang: "Idioma",
        settings_model: "Modelo",
        menu_settings: "Ajustes",
        help_settings_desc: "Cambiar el idioma y el modelo",
        lang_current: "Idioma actual",
        lang_set: "Idioma establecido en %s",
        settings_reset: "Restablecer los ajustes",
        settings_reset_done: "Los ajustes se han restablecido",
    }
}

/// The French texts.
pub open spec fn french_catalog() -> Messages {
    Messages {
        not_git_repo: "Ce n'est pas un dépôt git",
        generating_branch: "Génération d'un nom de branche...",
        what_to_implement: "Que voulez-vous implémenter ?",
        enter_desc: "Veuillez saisir une description",
        select_branch: "Choisissez un nom de branche",
        enter_manually: "Saisir manuellement",
        regenerate: "Régénérer avec un commentaire",
        branch_name: "Nom de la branche :",
        feedback: "Commentaire :",
        enter_branch_name: "Veuillez saisir un nom de branche",
        enter_feedback: "Veuillez saisir un commentaire",
        wt_already_exists: "Le worktree existe déjà",
        creating_wt: "Création du worktree...",
        wt_created: "Worktree créé",
        wt_created_existing: "Worktree créé à partir d'une branche existante",
        wt_create_failed: "Échec de la création du worktree",
        path: "Chemin :",
        branch: "Branche :",
        to_switch: "Pour y basculer, lancez",
        list_title: "Worktrees",
        no_wt_to_remove: "Aucun worktree à supprimer",
        select_wt_remove: "Choisissez un worktree à supprimer",
        confirm_delete: "Supprimer ce worktree ?",
        cancelled: "Annulé",
        wt_removed: "Worktree supprimé",
        wt_remove_failed: "Échec de la suppression du worktree",
        force_remove: "Forcer la suppression ?",
        wt_force_removed: "Worktree supprimé de force",
        force_remove_failed: "Échec de la suppression forcée du worktree",
        delete_branch: "Supprimer aussi la branche '%s' ?",
        branch_deleted: "Branche supprimée",
        force_delete_branch: "La branche n'est pas entièrement fusionnée. Forcer la suppression ?",
        branch_force_deleted: "Branche supprimée de force",
        no_wt_to_switch: "Aucun worktree vers lequel basculer",
        select_wt_switch: "Choisissez un worktree vers lequel basculer",
        switching_to: "Bascule vers %s",
        menu_title: "shuu - Gestionnaire de worktrees Git",
        menu_create: "Créer un worktree",
        menu_list: "Lister les worktrees",
        menu_remove: "Supprimer un worktree",
        menu_switch: "Changer de worktree",
        menu_help: "Aide",
        menu_hint: "\u{2191}\u{2193}: déplacer  Enter: choisir  q: annuler",
        help_usage: "Utilisation",
        help_commands: "Commandes",
        help_examples: "Exemples",
        help_notes: "Notes",
        help_create_desc: "Créer un nouveau worktree",
        help_list_desc: "Lister les worktrees",
        help_remove_desc: "Supprimer un worktree",
        help_switch_desc: "Basculer vers un worktree",
        help_help_desc: "Afficher cette aide",
        help_note_path: "Les worktrees sont créés dans ../<repo>-worktrees/",
        help_note_switch: "La bascule nécessite l'intégration au shell",
        help_direct_desc: "Créer un worktree à partir d'une description",
        model_current: "Modèle actuel",
        model_select: "Choisissez un modèle",
        model_set: "Modèle défini sur %s",
        model_none: "(non défini)",
        settings_title: "Paramètres",
        settings_lang: "Langue",
        settings_model: "Modèle",
        menu_settings: "Paramètres",
        help_settings_desc: "Changer la langue et le modèle",
        lang_current: "Langue actuelle",
        lang_set: "Langue définie sur %s",
        settings_reset: "Réinitialiser les paramètres",
        settings_reset_done: "Les paramètres ont été réinitialisés",
    }
}

/// The Japanese texts.
pub open spec fn japanese_catalog() -> Messages {
    Messages {
        not_git_repo: "Git リポジトリではありません",
        generating_branch: "ブランチ名を生成しています...",
        what_to_implement: "何を実装しますか？",
        enter_desc: "説明を入力してください",
        select_branch: "ブランチ名を選択",
        enter_manually: "手動で入力",
        regenerate: "フィードバックを付けて再生成",
        branch_name: "ブランチ名:",
        feedback: "フィードバック:",
        enter_branch_name: "ブランチ名を入力してください",
        enter_feedback: "フィードバックを入力してください",
        wt_already_exists: "ワークツリーは既に存在します",
        creating_wt: "ワークツリーを作成しています...",
        wt_created: "ワークツリーを作成しました",
        wt_created_existing: "既存のブランチからワークツリーを作成しました",
        wt_create_failed: "ワークツリーの作成に失敗しました",
        path: "パス:",
        branch: "ブランチ:",
        to_switch: "切り替えるには次を実行",
        list_title: "ワークツリー一覧",
        no_wt_to_remove: "削除できるワークツリーがありません",
        select_wt_remove: "削除するワークツリーを選択",
        confirm_delete: "このワークツリーを削除しますか？",
        cancelled: "キャンセルしました",
        wt_removed: "ワークツリーを削除しました",
        wt_remove_failed: "ワークツリーの削除に失敗しました",
        force_remove: "強制的に削除しますか？",
        wt_force_removed: "ワークツリーを強制削除しました",
        force_remove_failed: "ワークツリーの強制削除に失敗しました",
        delete_branch: "ブランチ '%s' も削除しますか？",
        branch_deleted: "ブランチを削除しました",
        force_delete_branch: "ブランチはマージされていません。強制的に削除しますか？",
        branch_force_deleted: "ブランチを強制削除しました",
        no_wt_to_switch: "切り替えられるワークツリーがありません",
        select_wt_switch: "切り替え先のワークツリーを選択",
        switching_to: "%s に切り替えます",
        menu_title: "shuu - Git ワークツリーマネージャー",
        menu_create: "ワークツリーを作成",
        menu_list: "ワークツリー一覧",
        menu_remove: "ワークツリーを削除",
        menu_switch: "ワークツリーを切り替え",
        menu_help: "ヘルプ",
        menu_hint: "\u{2191}\u{2193}: 移動  Enter: 選択  q: キャンセル",
        help_usage: "使い方",
        help_commands: "コマンド",
        help_examples: "例",
        help_notes: "注意",
        help_create_desc: "新しいワークツリーを作成",
        help_list_desc: "ワークツリーを一覧表示",
        help_remove_desc: "ワークツリーを削除",
        help_switch_desc: "ワークツリーを切り替え",
        help_help_desc: "このヘルプを表示",
        help_note_path: "ワークツリーは ../<repo>-worktrees/ に作成されます",
        help_note_switch: "切り替えにはシェル統合が必要です",
        help_direct_desc: "説明からワークツリーを作成",
        model_current: "現在のモデル",
        model_select: "モデルを選択",
        model_set: "モデルを %s に設定しました",
        model_none: "(未設定)",
        settings_title: "設定",
        settings_lang: "言語",
        settings_model: "モデル",
        menu_settings: "設定",
        help_settings_desc: "言語とモデルを変更",
        lang_current: "現在の言語",
        lang_set: "言語を %s に設定しました",
        settings_reset: "設定をリセット",
        settings_reset_done: "設定をリセットしました",
    }
}

/// The Russian texts.
pub open spec fn russian_catalog() -> Messages {
    Messages {
        not_git_repo: "Это не git-репозиторий",
        generating_branch: "Генерируется имя ветки...",
        what_to_implement: "Что вы хотите реализовать?",
        enter_desc: "Введите описание",
        select_branch: "Выберите имя ветки",
        enter_manually: "Ввести вручную",
        regenerate: "Сгенерировать заново с замечанием",
        branch_name: "Имя ветки:",
        feedback: "Замечание:",
        enter_branch_name: "Введите имя ветки",
        enter_feedback: "Введите замечание",
        wt_already_exists: "Рабочее дерево уже существует",
        creating_wt: "Создаётся рабочее дерево...",
        wt_created: "Рабочее дерево создано",
        wt_created_existing: "Рабочее дерево создано из существующей ветки",
        wt_create_failed: "Не удалось создать рабочее дерево",
        path: "Путь:",
        branch: "Ветка:",
        to_switch: "Чтобы переключиться, выполните",
        list_title: "Рабочие деревья",
        no_wt_to_remove: "Нет рабочих деревьев для удаления",
        select_wt_remove: "Выберите рабочее дерево для удаления",
        confirm_delete: "Удалить это рабочее дерево?",
        cancelled: "Отменено",
        wt_removed: "Рабочее дерево удалено",
        wt_remove_failed: "Не удалось удалить рабочее дерево",
        force_remove: "Удалить принудительно?",
        wt_force_removed: "Рабочее дерево удалено принудительно",
        force_remove_failed: "Не удалось принудительно удалить рабочее дерево",
        delete_branch: "Удалить также ветку '%s'?",
        branch_deleted: "Ветка удалена",
        force_delete_branch: "Ветка слита не полностью. Удалить принудительно?",
        branch_force_deleted: "Ветка удалена принудительно",
        no_wt_to_switch: "Нет рабочих деревьев для переключения",
        select_wt_switch: "Выберите рабочее дерево для переключения",
        switching_to: "Переключение на %s",
        menu_title: "shuu - менеджер рабочих деревьев Git",
        menu_create: "Создать рабочее дерево",
        menu_list: "Список рабочих деревьев",
        menu_remove: "Удалить рабочее дерево",
        menu_switch: "Переключить рабочее дерево",
        menu_help: "Справка",
        menu_hint: "\u{2191}\u{2193}: перемещение  Enter: выбор  q: отмена",
        help_usage: "Использование",
        help_commands: "Команды",
        help_examples: "Примеры",
        help_notes: "Примечания",
        help_create_desc: "Создать новое рабочее дерево",
        help_list_desc: "Показать рабочие деревья",
        help_remove_desc: "Удалить рабочее дерево",
        help_switch_desc: "Переключиться на рабочее дерево",
        help_help_desc: "Показать эту справку",
        help_note_path: "Рабочие деревья создаются в ../<repo>-worktrees/",
        help_note_switch: "Для переключения нужна интеграция с оболочкой",
        help_direct_desc: "Создать рабочее дерево по описанию",
        model_current: "Текущая модель",
        model_select: "Выберите модель",
        model_set: "Модель установлена: %s",
        model_none: "(не задано)",
        settings_title: "Настройки",
        settings_lang: "Язык",
        settings_model: "Модель",
        menu_settings: "Настройки",
        help_settings_desc: "Изменить язык и модель",
        lang_current: "Текущий язык",
        lang_set: "Язык установлен: %s",
        settings_reset: "Сбросить настройки",
        settings_reset_done: "Настройки сброшены",
    }
}

/// The Chinese texts.
pub open spec fn chinese_catalog() -> Messages {
    Messages {
        not_git_repo: "不是 git 仓库",
        generating_branch: "正在生成分支名...",
        what_to_implement: "你想实现什么？",
        enter_desc: "请输入描述",
        select_branch: "选择分支名",
        enter_manually: "手动输入",
        regenerate: "根据反馈重新生成",
        branch_name: "分支名:",
        feedback: "反馈:",
        enter_branch_name: "请输入分支名",
        enter_feedback: "请输入反馈",
        wt_already_exists: "工作树已存在",
        creating_wt: "正在创建工作树...",
        wt_created: "工作树已创建",
        wt_created_existing: "已从现有分支创建工作树",
        wt_create_failed: "创建工作树失败",
        path: "路径:",
        branch: "分支:",
        to_switch: "要切换过去，请运行",
        list_title: "工作树列表",
        no_wt_to_remove: "没有可删除的工作树",
        select_wt_remove: "选择要删除的工作树",
        confirm_delete: "删除这个工作树吗？",
        cancelled: "已取消",
        wt_removed: "工作树已删除",
        wt_remove_failed: "删除工作树失败",
        force_remove: "强制删除吗？",
        wt_force_removed: "工作树已强制删除",
        force_remove_failed: "强制删除工作树失败",
        delete_branch: "同时删除分支 '%s' 吗？",
        branch_deleted: "分支已删除",
        force_delete_branch: "分支尚未完全合并。强制删除吗？",
        branch_force_deleted: "分支已强制删除",
        no_wt_to_switch: "没有可切换的工作树",
        select_wt_switch: "选择要切换到的工作树",
        switching_to: "正在切换到 %s",
        menu_title: "shuu - Git 工作树管理器",
        menu_create: "创建工作树",
        menu_list: "列出工作树",
        menu_remove: "删除工作树",
        menu_switch: "切换工作树",
        menu_help: "帮助",
        menu_hint: "\u{2191}\u{2193}: 移动  Enter: 选择  q: 取消",
        help_usage: "用法",
        help_commands: "命令",
        help_examples: "示例",
        help_notes: "说明",
        help_create_desc: "创建新的工作树",
        help_list_desc: "列出工作树",
        help_remove_desc: "删除工作树",
        help_switch_desc: "切换到工作树",
        help_help_desc: "显示此帮助",
        help_note_path: "工作树创建在 ../<repo>-worktrees/ 下",
        help_note_switch: "切换需要 shell 集成",
        help_direct_desc: "根据描述创建工作树",
        model_current: "当前模型",
        model_select: "选择模型",
        model_set: "模型已设置为 %s",
        model_none: "(未设置)",
        settings_title: "设置",
        settings_lang: "语言",
        settings_model: "模型",
        menu_settings: "设置",
        help_settings_desc: "更改语言和模型",
        lang_current: "当前语言",
        lang_set: "语言已设置为 %s",
        settings_reset: "重置设置",
        settings_reset_done: "设置已重置",
    }
}

/// The texts of `lang`.
pub open spec fn catalog(lang: Lang) -> Messages {
    match lang {
        Lang::Ar => arabic_catalog(),
        Lang::En => english_catalog(),
        Lang::Es => spanish_catalog(),
        Lang::Fr => french_catalog(),
        Lang::Ja => japanese_catalog(),
        Lang::Ru => russian_catalog(),
        Lang::Zh => chinese_catalog(),
    }
}

fn arabic() -> (m: Messages)
    ensures
        m == arabic_catalog(),
{
    Messages {
        not_git_repo: "هذا ليس مستودع git",
        generating_branch: "جارٍ توليد اسم للفرع...",
        what_to_implement: "ماذا تريد أن تنفّذ؟",
        enter_desc: "يرجى إدخال وصف",
        select_branch: "اختر اسم الفرع",
        enter_manually: "إدخال يدوي",
        regenerate: "إعادة التوليد مع ملاحظات",
        branch_name: "اسم الفرع:",
        feedback: "ملاحظات:",
        enter_branch_name: "يرجى إدخال اسم الفرع",
        enter_feedback: "يرجى إدخال ملاحظات",
        wt_already_exists: "شجرة العمل موجودة بالفعل",
        creating_wt: "جارٍ إنشاء شجرة العمل...",
        wt_created: "تم إنشاء شجرة العمل",
        wt_created_existing: "تم إنشاء شجرة العمل من فرع موجود",
        wt_create_failed: "فشل إنشاء شجرة العمل",
        path: "المسار:",
        branch: "الفرع:",
        to_switch: "للتبديل إليها نفّذ",
        list_title: "أشجار العمل",
        no_wt_to_remove: "لا توجد أشجار عمل للحذف",
        select_wt_remove: "اختر شجرة العمل المراد حذفها",
        confirm_delete: "هل تريد حذف شجرة العمل هذه؟",
        cancelled: "تم الإلغاء",
        wt_removed: "تم حذف شجرة العمل",
        wt_remove_failed: "فشل حذف شجرة العمل",
        force_remove: "هل تريد الحذف بالقوة؟",
        wt_force_removed: "تم حذف شجرة العمل بالقوة",
        force_remove_failed: "فشل حذف شجرة العمل بالقوة",
        delete_branch: "هل تريد حذف الفرع '%s' أيضًا؟",
        branch_deleted: "تم حذف الفرع",
        force_delete_branch: "الفرع غير مدمج بالكامل. هل تريد الحذف بالقوة؟",
        branch_force_deleted: "تم حذف الفرع بالقوة",
        no_wt_to_switch: "لا توجد أشجار عمل للتبديل إليها",
        select_wt_switch: "اختر شجرة العمل للتبديل إليها",
        switching_to: "جارٍ التبديل إلى %s",
        menu_title: "shuu - مدير أشجار عمل Git",
        menu_create: "إنشاء شجرة عمل",
        menu_list: "عرض أشجار العمل",
        menu_remove: "حذف شجرة عمل",
        menu_switch: "تبديل شجرة العمل",
        menu_help: "مساعدة",
        menu_hint: "\u{2191}\u{2193}: تحريك  Enter: اختيار  q: إلغاء",
        help_usage: "الاستخدام",
        help_commands: "الأوامر",
        help_examples: "أمثلة",
        help_notes: "ملاحظات",
        help_create_desc: "إنشاء شجرة عمل جديدة",
        help_list_desc: "عرض أشجار العمل",
        help_remove_desc: "حذف شجرة عمل",
        help_switch_desc: "التبديل إلى شجرة عمل",
        help_help_desc: "عرض هذه المساعدة",
        help_note_path: "تُنشأ أشجار العمل في ../<repo>-worktrees/",
        help_note_switch: "يتطلب التبديل تكامل الصدفة",
        help_direct_desc: "إنشاء شجرة عمل من وصف",
        model_current: "النموذج الحالي",
        model_select: "اختر نموذجًا",
        model_set: "تم تعيين النموذج إلى %s",
        model_none: "(غير معيّن)",
        settings_title: "الإعدادات",
        settings_lang: "اللغة",
        settings_model: "النموذج",
        menu_settings: "الإعدادات",
        help_settings_desc: "تغيير اللغة والنموذج",
        lang_current: "اللغة الحالية",
        lang_set: "تم تعيين اللغة إلى %s",
        settings_reset: "إعادة تعيين الإعدادات",
        settings_reset_done: "تمت إعادة تعيين الإعدادات",
    }
}

fn english() -> (m: Messages)
    ensures
        m == english_catalog(),
{
    Messages {
        not_git_repo: "Not a git repository",
        generating_branch: "Generating a branch name...",
        what_to_implement: "What do you want to implement?",
        enter_desc: "Please enter a description",
        select_branch: "Select a branch name",
        enter_manually: "Enter manually",
        regenerate: "Regenerate with feedback",
        branch_name: "Branch name:",
        feedback: "Feedback:",
        enter_branch_name: "Please enter a branch name",
        enter_feedback: "Please enter feedback",
        wt_already_exists: "Worktree already exists",
        creating_wt: "Creating worktree...",
        wt_created: "Worktree created",
        wt_created_existing: "Worktree created from an existing branch",
        wt_create_failed: "Failed to create the worktree",
        path: "Path:",
        branch: "Branch:",
        to_switch: "To switch to it, run",
        list_title: "Worktrees",
        no_wt_to_remove: "No worktrees to remove",
        select_wt_remove: "Select a worktree to remove",
        confirm_delete: "Delete this worktree?",
        cancelled: "Cancelled",
        wt_removed: "Worktree removed",
        wt_remove_failed: "Failed to remove the worktree",
        force_remove: "Force removal?",
        wt_force_removed: "Worktree removed by force",
        force_remove_failed: "Failed to remove the worktree by force",
        delete_branch: "Delete the branch '%s' as well?",
        branch_deleted: "Branch deleted",
        force_delete_branch: "The branch is not fully merged. Force deletion?",
        branch_force_deleted: "Branch deleted by force",
        no_wt_to_switch: "No worktrees to switch to",
        select_wt_switch: "Select a worktree to switch to",
        switching_to: "Switching to %s",
        menu_title: "shuu - Git Worktree Manager",
        menu_create: "Create a worktree",
        menu_list: "List worktrees",
        menu_remove: "Remove a worktree",
        menu_switch: "Switch worktree",
        menu_help: "Help",
        menu_hint: "\u{2191}\u{2193}: move  Enter: select  q: cancel",
        help_usage: "Usage",
        help_commands: "Commands",
        help_examples: "Examples",
        help_notes: "Notes",
        help_create_desc: "Create a new worktree",
        help_list_desc: "List worktrees",
        help_remove_desc: "Remove a worktree",
        help_switch_desc: "Switch to a worktree",
        help_help_desc: "Show this help",
        help_note_path: "Worktrees are created in ../<repo>-worktrees/",
        help_note_switch: "Switching needs the shell integration",
        help_direct_desc: "Create a worktree from a description",
        model_current: "Current model",
        model_select: "Select a model",
        model_set: "Model set to %s",
        model_none: "(not set)",
        settings_title: "Settings",
        settings_lang: "Language",
        settings_model: "Model",
        menu_settings: "Settings",
        help_settings_desc: "Change the language and the model",
        lang_current: "Current language",
        lang_set: "Language set to %s",
        settings_reset: "Reset settings",
        settings_reset_done: "Settings have been reset",
    }
}

fn spanish() -> (m: Messages)
    ensures
        m == spanish_catalog(),
{
    Messages {
        not_git_repo: "No es un repositorio git",
        generating_branch: "Generando un nombre de rama...",
        what_to_implement: "¿Qué quieres implementar?",
        enter_desc: "Introduce una descripción",
        select_branch: "Elige un nombre de rama",
        enter_manually: "Introducir manualmente",
        regenerate: "Regenerar con comentarios",
        branch_name: "Nombre de la rama:",
        feedback: "Comentarios:",
        enter_branch_name: "Introduce un nombre de rama",
        enter_feedback: "Introduce un comentario",
        wt_already_exists: "El worktree ya existe",
        creating_wt: "Creando el worktree...",
        wt_created: "Worktree creado",
        wt_created_existing: "Worktree creado a partir de una rama existente",
        wt_create_failed: "No se pudo crear el worktree",
        path: "Ruta:",
        branch: "Rama:",
        to_switch: "Para cambiar a él, ejecuta",
        list_title: "Worktrees",
        no_wt_to_remove: "No hay worktrees que eliminar",
        select_wt_remove: "Elige un worktree para eliminar",
        confirm_delete: "¿Eliminar este worktree?",
        cancelled: "Cancelado",
        wt_removed: "Worktree eliminado",
        wt_remove_failed: "No se pudo eliminar el worktree",
        force_remove: "¿Forzar la eliminación?",
        wt_force_removed: "Worktree eliminado a la fuerza",
        force_remove_failed: "No se pudo forzar la eliminación del worktree",
        delete_branch: "¿Eliminar también la rama '%s'?",
        branch_deleted: "Rama eliminada",
        force_delete_branch: "La rama no está completamente fusionada. ¿Forzar la eliminación?",
        branch_force_deleted: "Rama eliminada a la fuerza",
        no_wt_to_switch: "No hay worktrees a los que cambiar",
        select_wt_switch: "Elige un worktree al que cambiar",
        switching_to: "Cambiando a %s",
        menu_title: "shuu - Gestor de worktrees de Git",
        menu_create: "Crear un worktree",
        menu_list: "Listar los worktrees",
        menu_remove: "Eliminar un worktree",
        menu_switch: "Cambiar de worktree",
        menu_help: "Ayuda",
        menu_hint: "\u{2191}\u{2193}: mover  Enter: elegir  q: cancelar",
        help_usage: "Uso",
        help_commands: "Comandos",
        help_examples: "Ejemplos",
        help_notes: "Notas",
        help_create_desc: "Crear un worktree nuevo",
        help_list_desc: "Listar los worktrees",
        help_remove_desc: "Eliminar un worktree",
        help_switch_desc: "Cambiar a un worktree",
        help_help_desc: "Mostrar esta ayuda",
        help_note_path: "Los worktrees se crean en ../<repo>-worktrees/",
        help_note_switch: "Cambiar requiere la integración con el shell",
        help_direct_desc: "Crear un worktree a partir de una descripción",
        model_current: "Modelo actual",
        model_select: "Elige un modelo",
        model_set: "Modelo establecido en %s",
        model_none: "(sin definir)",
        settings_title: "Ajustes",
        settings_lang: "Idioma",
        settings_model: "Modelo",
        menu_settings: "Ajustes",
        help_settings_desc: "Cambiar el idioma y el modelo",
        lang_current: "Idioma actual",
        lang_set: "Idioma establecido en %s",
        settings_reset: "Restablecer los ajustes",
        settings_reset_done: "Los ajustes se han restablecido",
    }
}

fn french() -> (m: Messages)
    ensures
        m == french_catalog(),
{
    Messages {
        not_git_repo: "Ce n'est pas un dépôt git",
        generating_branch: "Génération d'un nom de branche...",
        what_to_implement: "Que voulez-vous implémenter ?",
        enter_desc: "Veuillez saisir une description",
        select_branch: "Choisissez un nom de branche",
        enter_manually: "Saisir manuellement",
        regenerate: "Régénérer avec un commentaire",
        branch_name: "Nom de la branche :",
        feedback: "Commentaire :",
        enter_branch_name: "Veuillez saisir un nom de branche",
        enter_feedback: "Veuillez saisir un commentaire",
        wt_already_exists: "Le worktree existe déjà",
        creating_wt: "Création du worktree...",
        wt_created: "Worktree créé",
        wt_created_existing: "Worktree créé à partir d'une branche existante",
        wt_create_failed: "Échec de la création du worktree",
        path: "Chemin :",
        branch: "Branche :",
        to_switch: "Pour y basculer, lancez",
        list_title: "Worktrees",
        no_wt_to_remove: "Aucun worktree à supprimer",
        select_wt_remove: "Choisissez un worktree à supprimer",
        confirm_delete: "Supprimer ce worktree ?",
        cancelled: "Annulé",
        wt_removed: "Worktree supprimé",
        wt_remove_failed: "Échec de la suppression du worktree",
        force_remove: "Forcer la suppression ?",
        wt_force_removed: "Worktree supprimé de force",
        force_remove_failed: "Échec de la suppression forcée du worktree",
        delete_branch: "Supprimer aussi la branche '%s' ?",
        branch_deleted: "Branche supprimée",
        force_delete_branch: "La branche n'est pas entièrement fusionnée. Forcer la suppression ?",
        branch_force_deleted: "Branche supprimée de force",
        no_wt_to_switch: "Aucun worktree vers lequel basculer",
        select_wt_switch: "Choisissez un worktree vers lequel basculer",
        switching_to: "Bascule vers %s",
        menu_title: "shuu - Gestionnaire de worktrees Git",
        menu_create: "Créer un worktree",
        menu_list: "Lister les worktrees",
        menu_remove: "Supprimer un worktree",
        menu_switch: "Changer de worktree",
        menu_help: "Aide",
        menu_hint: "\u{2191}\u{2193}: déplacer  Enter: choisir  q: annuler",
        help_usage: "Utilisation",
        help_commands: "Commandes",
        help_examples: "Exemples",
        help_notes: "Notes",
        help_create_desc: "Créer un nouveau worktree",
        help_list_desc: "Lister les worktrees",
        help_remove_desc: "Supprimer un worktree",
        help_switch_desc: "Basculer vers un worktree",
        help_help_desc: "Afficher cette aide",
        help_note_path: "Les worktrees sont créés dans ../<repo>-worktrees/",
        help_note_switch: "La bascule nécessite l'intégration au shell",
        help_direct_desc: "Créer un worktree à partir d'une description",
        model_current: "Modèle actuel",
        model_select: "Choisissez un modèle",
        model_set: "Modèle défini sur %s",
        model_none: "(non défini)",
        settings_title: "Paramètres",
        settings_lang: "Langue",
        settings_model: "Modèle",
        menu_settings: "Paramètres",
        help_settings_desc: "Changer la langue et le modèle",
        lang_current: "Langue actuelle",
        lang_set: "Langue définie sur %s",
        settings_reset: "Réinitialiser les paramètres",
        settings_reset_done: "Les paramètres ont été réinitialisés",
    }
}

fn japanese() -> (m: Messages)
    ensures
        m == japanese_catalog(),
{
    Messages {
        not_git_repo: "Git リポジトリではありません",
        generating_branch: "ブランチ名を生成しています...",
        what_to_implement: "何を実装しますか？",
        enter_desc: "説明を入力してください",
        select_branch: "ブランチ名を選択",
        enter_manually: "手動で入力",
        regenerate: "フィードバックを付けて再生成",
        branch_name: "ブランチ名:",
        feedback: "フィードバック:",
        enter_branch_name: "ブランチ名を入力してください",
        enter_feedback: "フィードバックを入力してください",
        wt_already_exists: "ワークツリーは既に存在します",
        creating_wt: "ワークツリーを作成しています...",
        wt_created: "ワークツリーを作成しました",
        wt_created_existing: "既存のブランチからワークツリーを作成しました",
        wt_create_failed: "ワークツリーの作成に失敗しました",
        path: "パス:",
        branch: "ブランチ:",
        to_switch: "切り替えるには次を実行",
        list_title: "ワークツリー一覧",
        no_wt_to_remove: "削除できるワークツリーがありません",
        select_wt_remove: "削除するワークツリーを選択",
        confirm_delete: "このワークツリーを削除しますか？",
        cancelled: "キャンセルしました",
        wt_removed: "ワークツリーを削除しました",
        wt_remove_failed: "ワークツリーの削除に失敗しました",
        force_remove: "強制的に削除しますか？",
        wt_force_removed: "ワークツリーを強制削除しました",
        force_remove_failed: "ワークツリーの強制削除に失敗しました",
        delete_branch: "ブランチ '%s' も削除しますか？",
        branch_deleted: "ブランチを削除しました",
        force_delete_branch: "ブランチはマージされていません。強制的に削除しますか？",
        branch_force_deleted: "ブランチを強制削除しました",
        no_wt_to_switch: "切り替えられるワークツリーがありません",
        select_wt_switch: "切り替え先のワークツリーを選択",
        switching_to: "%s に切り替えます",
        menu_title: "shuu - Git ワークツリーマネージャー",
        menu_create: "ワークツリーを作成",
        menu_list: "ワークツリー一覧",
        menu_remove: "ワークツリーを削除",
        menu_switch: "ワークツリーを切り替え",
        menu_help: "ヘルプ",
        menu_hint: "\u{2191}\u{2193}: 移動  Enter: 選択  q: キャンセル",
        help_usage: "使い方",
        help_commands: "コマンド",
        help_examples: "例",
        help_notes: "注意",
        help_create_desc: "新しいワークツリーを作成",
        help_list_desc: "ワークツリーを一覧表示",
        help_remove_desc: "ワークツリーを削除",
        help_switch_desc: "ワークツリーを切り替え",
        help_help_desc: "このヘルプを表示",
        help_note_path: "ワークツリーは ../<repo>-worktrees/ に作成されます",
        help_note_switch: "切り替えにはシェル統合が必要です",
        help_direct_desc: "説明からワークツリーを作成",
        model_current: "現在のモデル",
        model_select: "モデルを選択",
        model_set: "モデルを %s に設定しました",
        model_none: "(未設定)",
        settings_title: "設定",
        settings_lang: "言語",
        settings_model: "モデル",
        menu_settings: "設定",
        help_settings_desc: "言語とモデルを変更",
        lang_current: "現在の言語",
        lang_set: "言語を %s に設定しました",
        settings_reset: "設定をリセット",
        settings_reset_done: "設定をリセットしました",
    }
}

fn russian() -> (m: Messages)
    ensures
        m == russian_catalog(),
{
    Messages {
        not_git_repo: "Это не git-репозиторий",
        generating_branch: "Генерируется имя ветки...",
        what_to_implement: "Что вы хотите реализовать?",
        enter_desc: "Введите описание",
        select_branch: "Выберите имя ветки",
        enter_manually: "Ввести вручную",
        regenerate: "Сгенерировать заново с замечанием",
        branch_name: "Имя ветки:",
        feedback: "Замечание:",
        enter_branch_name: "Введите имя ветки",
        enter_feedback: "Введите замечание",
        wt_already_exists: "Рабочее дерево уже существует",
        creating_wt: "Создаётся рабочее дерево...",
        wt_created: "Рабочее дерево создано",
        wt_created_existing: "Рабочее дерево создано из существующей ветки",
        wt_create_failed: "Не удалось создать рабочее дерево",
        path: "Путь:",
        branch: "Ветка:",
        to_switch: "Чтобы переключиться, выполните",
        list_title: "Рабочие деревья",
        no_wt_to_remove: "Нет рабочих деревьев для удаления",
        select_wt_remove: "Выберите рабочее дерево для удаления",
        confirm_delete: "Удалить это рабочее дерево?",
        cancelled: "Отменено",
        wt_removed: "Рабочее дерево удалено",
        wt_remove_failed: "Не удалось удалить рабочее дерево",
        force_remove: "Удалить принудительно?",
        wt_force_removed: "Рабочее дерево удалено принудительно",
        force_remove_failed: "Не удалось принудительно удалить рабочее дерево",
        delete_branch: "Удалить также ветку '%s'?",
        branch_deleted: "Ветка удалена",
        force_delete_branch: "Ветка слита не полностью. Удалить принудительно?",
        branch_force_deleted: "Ветка удалена принудительно",
        no_wt_to_switch: "Нет рабочих деревьев для переключения",
        select_wt_switch: "Выберите рабочее дерево для переключения",
        switching_to: "Переключение на %s",
        menu_title: "shuu - менеджер рабочих деревьев Git",
        menu_create: "Создать рабочее дерево",
        menu_list: "Список рабочих деревьев",
        menu_remove: "Удалить рабочее дерево",
        menu_switch: "Переключить рабочее дерево",
        menu_help: "Справка",
        menu_hint: "\u{2191}\u{2193}: перемещение  Enter: выбор  q: отмена",
        help_usage: "Использование",
        help_commands: "Команды",
        help_examples: "Примеры",
        help_notes: "Примечания",
        help_create_desc: "Создать новое рабочее дерево",
        help_list_desc: "Показать рабочие деревья",
        help_remove_desc: "Удалить рабочее дерево",
        help_switch_desc: "Переключиться на рабочее дерево",
        help_help_desc: "Показать эту справку",
        help_note_path: "Рабочие деревья создаются в ../<repo>-worktrees/",
        help_note_switch: "Для переключения нужна интеграция с оболочкой",
        help_direct_desc: "Создать рабочее дерево по описанию",
        model_current: "Текущая модель",
        model_select: "Выберите модель",
        model_set: "Модель установлена: %s",
        model_none: "(не задано)",
        settings_title: "Настройки",
        settings_lang: "Язык",
        settings_model: "Модель",
        menu_settings: "Настройки",
        help_settings_desc: "Изменить язык и модель",
        lang_current: "Текущий язык",
        lang_set: "Язык установлен: %s",
        settings_reset: "Сбросить настройки",
        settings_reset_done: "Настройки сброшены",
    }
}

fn chinese() -> (m: Messages)
    ensures
        m == chinese_catalog(),
{
    Messages {
        not_git_repo: "不是 git 仓库",
        generating_branch: "正在生成分支名...",
        what_to_implement: "你想实现什么？",
        enter_desc: "请输入描述",
        select_branch: "选择分支名",
        enter_manually: "手动输入",
        regenerate: "根据反馈重新生成",
        branch_name: "分支名:",
        feedback: "反馈:",
        enter_branch_name: "请输入分支名",
        enter_feedback: "请输入反馈",
        wt_already_exists: "工作树已存在",
        creating_wt: "正在创建工作树...",
        wt_created: "工作树已创建",
        wt_created_existing: "已从现有分支创建工作树",
        wt_create_failed: "创建工作树失败",
        path: "路径:",
        branch: "分支:",
        to_switch: "要切换过去，请运行",
        list_title: "工作树列表",
        no_wt_to_remove: "没有可删除的工作树",
        select_wt_remove: "选择要删除的工作树",
        confirm_delete: "删除这个工作树吗？",
        cancelled: "已取消",
        wt_removed: "工作树已删除",
        wt_remove_failed: "删除工作树失败",
        force_remove: "强制删除吗？",
        wt_force_removed: "工作树已强制删除",
        force_remove_failed: "强制删除工作树失败",
        delete_branch: "同时删除分支 '%s' 吗？",
        branch_deleted: "分支已删除",
        force_delete_branch: "分支尚未完全合并。强制删除吗？",
        branch_force_deleted: "分支已强制删除",
        no_wt_to_switch: "没有可切换的工作树",
        select_wt_switch: "选择要切换到的工作树",
        switching_to: "正在切换到 %s",
        menu_title: "shuu - Git 工作树管理器",
        menu_create: "创建工作树",
        menu_list: "列出工作树",
        menu_remove: "删除工作树",
        menu_switch: "切换工作树",
        menu_help: "帮助",
        menu_hint: "\u{2191}\u{2193}: 移动  Enter: 选择  q: 取消",
        help_usage: "用法",
        help_commands: "命令",
        help_examples: "示例",
        help_notes: "说明",
        help_create_desc: "创建新的工作树",
        help_list_desc: "列出工作树",
        help_remove_desc: "删除工作树",
        help_switch_desc: "切换到工作树",
        help_help_desc: "显示此帮助",
        help_note_path: "工作树创建在 ../<repo>-worktrees/ 下",
        help_note_switch: "切换需要 shell 集成",
        help_direct_desc: "根据描述创建工作树",
        model_current: "当前模型",
        model_select: "选择模型",
        model_set: "模型已设置为 %s",
        model_none: "(未设置)",
        settings_title: "设置",
        settings_lang: "语言",
        settings_model: "模型",
        menu_settings: "设置",
        help_settings_desc: "更改语言和模型",
        lang_current: "当前语言",
        lang_set: "语言已设置为 %s",
        settings_reset: "重置设置",
        settings_reset_done: "设置已重置",
    }
}

/// The texts of `lang`.
pub fn messages(lang: Lang) -> (m: Messages)
    ensures
        m == catalog(lang),
{
    match lang {
        Lang::Ar => arabic(),
        Lang::En => english(),
        Lang::Es => spanish(),
        Lang::Fr => french(),
        Lang::Ja => japanese(),
        Lang::Ru => russian(),
        Lang::Zh => chinese(),
    }
}

} // verus!
