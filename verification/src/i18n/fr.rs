//! French translations.

use std::collections::HashMap;
use vstd::prelude::*;
use vstd::string::StringExecFns;

verus! {

/// The key at each position of the French table.
pub open spec fn spec_key_at(i: int) -> Seq<char> {
    if i < 30 {
        spec_key_s0(i - 0)
    } else if i < 60 {
        spec_key_s1(i - 30)
    } else if i < 90 {
        spec_key_s2(i - 60)
    } else if i < 120 {
        spec_key_s3(i - 90)
    } else if i < 150 {
        spec_key_s4(i - 120)
    } else if i < 180 {
        spec_key_s5(i - 150)
    } else if i < 210 {
        spec_key_s6(i - 180)
    } else if i < 240 {
        spec_key_s7(i - 210)
    } else {
        spec_key_s8(i - 240)
    }
}

/// The value at each position of the French table.
pub open spec fn spec_value_at(i: int) -> Seq<char> {
    if i < 30 {
        spec_value_s0(i - 0)
    } else if i < 60 {
        spec_value_s1(i - 30)
    } else if i < 90 {
        spec_value_s2(i - 60)
    } else if i < 120 {
        spec_value_s3(i - 90)
    } else if i < 150 {
        spec_value_s4(i - 120)
    } else if i < 180 {
        spec_value_s5(i - 150)
    } else if i < 210 {
        spec_value_s6(i - 180)
    } else if i < 240 {
        spec_value_s7(i - 210)
    } else {
        spec_value_s8(i - 240)
    }
}

/// The table is exactly the French pair list, entry by entry.
pub open spec fn spec_table_matches(t: Seq<(String, String)>) -> bool {
    &&& t.len() == 242
    &&& forall|i: int|
        0 <= i < t.len() ==> (#[trigger] t[i]).0@ == spec_key_at(i) && t[i].1@
            == spec_value_at(i)
}

pub open spec fn spec_key_s0(i: int) -> Seq<char> {
    if i == 0 {
        "app.title"@
    } else if i == 1 {
        "app.version"@
    } else if i == 2 {
        "nav.dashboard"@
    } else if i == 3 {
        "nav.history"@
    } else if i == 4 {
        "nav.settings"@
    } else if i == 5 {
        "nav.about"@
    } else if i == 6 {
        "dashboard.current_power"@
    } else if i == 7 {
        "dashboard.session_energy"@
    } else if i == 8 {
        "dashboard.session_cost"@
    } else if i == 9 {
        "dashboard.hourly_estimate"@
    } else if i == 10 {
        "dashboard.daily_estimate"@
    } else if i == 11 {
        "dashboard.monthly_estimate"@
    } else if i == 12 {
        "dashboard.session_duration"@
    } else if i == 13 {
        "dashboard.power_source"@
    } else if i == 14 {
        "dashboard.estimated"@
    } else if i == 15 {
        "dashboard.measured"@
    } else if i == 16 {
        "unit.watts"@
    } else if i == 17 {
        "unit.kilowatts"@
    } else if i == 18 {
        "unit.watt_hours"@
    } else if i == 19 {
        "unit.kilowatt_hours"@
    } else if i == 20 {
        "unit.per_hour"@
    } else if i == 21 {
        "unit.per_day"@
    } else if i == 22 {
        "unit.per_month"@
    } else if i == 23 {
        "settings.general"@
    } else if i == 24 {
        "settings.language"@
    } else if i == 25 {
        "settings.language.auto"@
    } else if i == 26 {
        "settings.theme"@
    } else if i == 27 {
        "settings.theme.dark"@
    } else if i == 28 {
        "settings.theme.light"@
    } else {
        "settings.theme.system"@
    }
}

pub open spec fn spec_value_s0(i: int) -> Seq<char> {
    if i == 0 {
        "PowerCost Tracker"@
    } else if i == 1 {
        "Version"@
    } else if i == 2 {
        "Tableau de bord"@
    } else if i == 3 {
        "Historique"@
    } else if i == 4 {
        "Param\u{00E8}tres"@
    } else if i == 5 {
        "\u{00C0} propos"@
    } else if i == 6 {
        "Puissance actuelle"@
    } else if i == 7 {
        "\u{00C9}nergie de session"@
    } else if i == 8 {
        "Co\u{00FB}t de session"@
    } else if i == 9 {
        "Estimation horaire"@
    } else if i == 10 {
        "Estimation journali\u{00E8}re"@
    } else if i == 11 {
        "Estimation mensuelle"@
    } else if i == 12 {
        "Dur\u{00E9}e de session"@
    } else if i == 13 {
        "Source de mesure"@
    } else if i == 14 {
        "Estim\u{00E9}"@
    } else if i == 15 {
        "Mesur\u{00E9}"@
    } else if i == 16 {
        "W"@
    } else if i == 17 {
        "kW"@
    } else if i == 18 {
        "Wh"@
    } else if i == 19 {
        "kWh"@
    } else if i == 20 {
        "/heure"@
    } else if i == 21 {
        "/jour"@
    } else if i == 22 {
        "/mois"@
    } else if i == 23 {
        "G\u{00E9}n\u{00E9}ral"@
    } else if i == 24 {
        "Langue"@
    } else if i == 25 {
        "D\u{00E9}tection automatique"@
    } else if i == 26 {
        "Th\u{00E8}me"@
    } else if i == 27 {
        "Sombre"@
    } else if i == 28 {
        "Clair"@
    } else {
        "Syst\u{00E8}me"@
    }
}

pub open spec fn spec_key_s1(i: int) -> Seq<char> {
    if i == 0 {
        "settings.refresh_rate"@
    } else if i == 1 {
        "settings.eco_mode"@
    } else if i == 2 {
        "settings.eco_mode.description"@
    } else if i == 3 {
        "settings.start_minimized"@
    } else if i == 4 {
        "settings.start_with_system"@
    } else if i == 5 {
        "settings.remember_window_position"@
    } else if i == 6 {
        "settings.pricing"@
    } else if i == 7 {
        "settings.pricing.mode"@
    } else if i == 8 {
        "settings.pricing.mode.simple"@
    } else if i == 9 {
        "settings.pricing.mode.peak_offpeak"@
    } else if i == 10 {
        "settings.pricing.mode.seasonal"@
    } else if i == 11 {
        "settings.pricing.mode.tempo"@
    } else if i == 12 {
        "settings.pricing.currency"@
    } else if i == 13 {
        "settings.pricing.rate"@
    } else if i == 14 {
        "settings.pricing.peak_rate"@
    } else if i == 15 {
        "settings.pricing.offpeak_rate"@
    } else if i == 16 {
        "settings.pricing.offpeak_start"@
    } else if i == 17 {
        "settings.pricing.offpeak_end"@
    } else if i == 18 {
        "settings.pricing.summer_rate"@
    } else if i == 19 {
        "settings.pricing.winter_rate"@
    } else if i == 20 {
        "settings.pricing.not_configured"@
    } else if i == 21 {
        "settings.pricing.configure_hint"@
    } else if i == 22 {
        "settings.widget"@
    } else if i == 23 {
        "settings.widget.enabled"@
    } else if i == 24 {
        "settings.widget.show_cost"@
    } else if i == 25 {
        "settings.widget.show_power"@
    } else if i == 26 {
        "settings.widget.position"@
    } else if i == 27 {
        "settings.widget.position.top_left"@
    } else if i == 28 {
        "settings.widget.position.top_right"@
    } else {
        "settings.widget.position.bottom_left"@
    }
}

pub open spec fn spec_value_s1(i: int) -> Seq<char> {
    if i == 0 {
        "Fr\u{00E9}quence de rafra\u{00EE}chissement"@
    } else if i == 1 {
        "Mode \u{00E9}co"@
    } else if i == 2 {
        "R\u{00E9}duire la fr\u{00E9}quence quand minimis\u{00E9}"@
    } else if i == 3 {
        "D\u{00E9}marrer minimis\u{00E9}"@
    } else if i == 4 {
        "D\u{00E9}marrer avec le syst\u{00E8}me"@
    } else if i == 5 {
        "M\u{00E9}moriser la position et la taille de la fen\u{00EA}tre"@
    } else if i == 6 {
        "Tarification"@
    } else if i == 7 {
        "Mode de tarification"@
    } else if i == 8 {
        "Simple (tarif unique)"@
    } else if i == 9 {
        "Heures pleines/creuses"@
    } else if i == 10 {
        "Saisonnier"@
    } else if i == 11 {
        "Tempo (style EDF)"@
    } else if i == 12 {
        "Devise"@
    } else if i == 13 {
        "Tarif au kWh"@
    } else if i == 14 {
        "Tarif heures pleines"@
    } else if i == 15 {
        "Tarif heures creuses"@
    } else if i == 16 {
        "D\u{00E9}but heures creuses"@
    } else if i == 17 {
        "Fin heures creuses"@
    } else if i == 18 {
        "Tarif \u{00E9}t\u{00E9}"@
    } else if i == 19 {
        "Tarif hiver"@
    } else if i == 20 {
        "Tarification non configur\u{00E9}e"@
    } else if i == 21 {
        "Configurez la tarification pour voir les estimations de co\u{00FB}t"@
    } else if i == 22 {
        "Widget"@
    } else if i == 23 {
        "Activer le widget"@
    } else if i == 24 {
        "Afficher le co\u{00FB}t"@
    } else if i == 25 {
        "Afficher la consommation uniquement"@
    } else if i == 26 {
        "Position"@
    } else if i == 27 {
        "Haut gauche"@
    } else if i == 28 {
        "Haut droite"@
    } else {
        "Bas gauche"@
    }
}

pub open spec fn spec_key_s2(i: int) -> Seq<char> {
    if i == 0 {
        "settings.widget.position.bottom_right"@
    } else if i == 1 {
        "settings.widget.opacity"@
    } else if i == 2 {
        "settings.widget.open"@
    } else if i == 3 {
        "settings.widget.close"@
    } else if i == 4 {
        "settings.pricing.tempo.blue"@
    } else if i == 5 {
        "settings.pricing.tempo.white"@
    } else if i == 6 {
        "settings.pricing.tempo.red"@
    } else if i == 7 {
        "settings.pricing.tempo.peak"@
    } else if i == 8 {
        "settings.pricing.tempo.offpeak"@
    } else if i == 9 {
        "settings.pricing.winter_months"@
    } else if i == 10 {
        "settings.saved"@
    } else if i == 11 {
        "settings.advanced"@
    } else if i == 12 {
        "settings.advanced.baseline"@
    } else if i == 13 {
        "settings.advanced.baseline.auto"@
    } else if i == 14 {
        "settings.advanced.baseline.manual"@
    } else if i == 15 {
        "settings.advanced.baseline.description"@
    } else if i == 16 {
        "history.title"@
    } else if i == 17 {
        "history.today"@
    } else if i == 18 {
        "history.this_week"@
    } else if i == 19 {
        "history.this_month"@
    } else if i == 20 {
        "history.custom_range"@
    } else if i == 21 {
        "history.total_consumption"@
    } else if i == 22 {
        "history.total_cost"@
    } else if i == 23 {
        "history.average_power"@
    } else if i == 24 {
        "history.peak_power"@
    } else if i == 25 {
        "history.no_data"@
    } else if i == 26 {
        "about.title"@
    } else if i == 27 {
        "about.description"@
    } else if i == 28 {
        "about.license"@
    } else {
        "about.source"@
    }
}

pub open spec fn spec_value_s2(i: int) -> Seq<char> {
    if i == 0 {
        "Bas droite"@
    } else if i == 1 {
        "Opacit\u{00E9}"@
    } else if i == 2 {
        "Ouvrir le widget"@
    } else if i == 3 {
        "Fermer le widget"@
    } else if i == 4 {
        "Jours bleus"@
    } else if i == 5 {
        "Jours blancs"@
    } else if i == 6 {
        "Jours rouges"@
    } else if i == 7 {
        "Heures pleines"@
    } else if i == 8 {
        "Heures creuses"@
    } else if i == 9 {
        "Mois d'hiver"@
    } else if i == 10 {
        "Param\u{00E8}tres enregistr\u{00E9}s avec succ\u{00E8}s"@
    } else if i == 11 {
        "Avanc\u{00E9}"@
    } else if i == 12 {
        "Consommation de base"@
    } else if i == 13 {
        "D\u{00E9}tection automatique"@
    } else if i == 14 {
        "Manuel"@
    } else if i == 15 {
        "Consommation de base pour le suivi du surplus"@
    } else if i == 16 {
        "Historique de consommation"@
    } else if i == 17 {
        "Aujourd'hui"@
    } else if i == 18 {
        "Cette semaine"@
    } else if i == 19 {
        "Ce mois"@
    } else if i == 20 {
        "P\u{00E9}riode personnalis\u{00E9}e"@
    } else if i == 21 {
        "Consommation totale"@
    } else if i == 22 {
        "Co\u{00FB}t total"@
    } else if i == 23 {
        "Puissance moyenne"@
    } else if i == 24 {
        "Puissance maximale"@
    } else if i == 25 {
        "Aucune donn\u{00E9}e disponible pour cette p\u{00E9}riode"@
    } else if i == 26 {
        "\u{00C0} propos de PowerCost Tracker"@
    } else if i == 27 {
        "Une application de bureau l\u{00E9}g\u{00E8}re pour surveiller la consommation \u{00E9}lectrique du PC et calculer les co\u{00FB}ts d'\u{00E9}lectricit\u{00E9} en temps r\u{00E9}el."@
    } else if i == 28 {
        "Licence : MIT"@
    } else {
        "Code source"@
    }
}

pub open spec fn spec_key_s3(i: int) -> Seq<char> {
    if i == 0 {
        "error.hardware_not_detected"@
    } else if i == 1 {
        "error.using_estimation"@
    } else if i == 2 {
        "error.permission_denied"@
    } else if i == 3 {
        "error.save_failed"@
    } else if i == 4 {
        "warning.estimated_values"@
    } else if i == 5 {
        "action.save"@
    } else if i == 6 {
        "action.cancel"@
    } else if i == 7 {
        "action.reset"@
    } else if i == 8 {
        "action.close"@
    } else if i == 9 {
        "action.minimize"@
    } else if i == 10 {
        "action.quit"@
    } else if i == 11 {
        "time.hours"@
    } else if i == 12 {
        "time.minutes"@
    } else if i == 13 {
        "time.seconds"@
    } else if i == 14 {
        "dashboard.mode.normal"@
    } else if i == 15 {
        "dashboard.mode.minimal"@
    } else if i == 16 {
        "dashboard.edit_mode"@
    } else if i == 17 {
        "dashboard.default_layout"@
    } else if i == 18 {
        "dashboard.toggle_widgets"@
    } else if i == 19 {
        "dashboard.done"@
    } else if i == 20 {
        "dashboard.toggle_visibility"@
    } else if i == 21 {
        "dashboard.edit"@
    } else if i == 22 {
        "dashboard.edit_hint"@
    } else if i == 23 {
        "dashboard.reset_default"@
    } else if i == 24 {
        "dashboard.saved"@
    } else if i == 25 {
        "dashboard.save_failed"@
    } else if i == 26 {
        "dashboard.reset_success"@
    } else if i == 27 {
        "dashboard.edit_activated"@
    } else if i == 28 {
        "dashboard.changes_saved"@
    } else {
        "dashboard.default_applied"@
    }
}

pub open spec fn spec_value_s3(i: int) -> Seq<char> {
    if i == 0 {
        "Mat\u{00E9}riel de mesure non d\u{00E9}tect\u{00E9}"@
    } else if i == 1 {
        "Utilisation du mode estimation"@
    } else if i == 2 {
        "Permission refus\u{00E9}e"@
    } else if i == 3 {
        "\u{00C9}chec de l'enregistrement"@
    } else if i == 4 {
        "Les valeurs de puissance sont estim\u{00E9}es (aucun capteur direct d\u{00E9}tect\u{00E9})"@
    } else if i == 5 {
        "Enregistrer"@
    } else if i == 6 {
        "Annuler"@
    } else if i == 7 {
        "R\u{00E9}initialiser"@
    } else if i == 8 {
        "Fermer"@
    } else if i == 9 {
        "Minimiser"@
    } else if i == 10 {
        "Quitter"@
    } else if i == 11 {
        "heures"@
    } else if i == 12 {
        "minutes"@
    } else if i == 13 {
        "secondes"@
    } else if i == 14 {
        "Normal"@
    } else if i == 15 {
        "Minimal"@
    } else if i == 16 {
        "Mode édition"@
    } else if i == 17 {
        "Disposition par défaut"@
    } else if i == 18 {
        "Paramètres des widgets"@
    } else if i == 19 {
        "Terminé"@
    } else if i == 20 {
        "Visibilité des widgets"@
    } else if i == 21 {
        "Modifier le tableau de bord"@
    } else if i == 22 {
        "Activez/désactivez les widgets et glissez pour réorganiser"@
    } else if i == 23 {
        "Réinitialiser"@
    } else if i == 24 {
        "Tableau de bord enregistré"@
    } else if i == 25 {
        "Échec de l'enregistrement"@
    } else if i == 26 {
        "Tableau de bord réinitialisé"@
    } else if i == 27 {
        "Mode édition activé"@
    } else if i == 28 {
        "Modifications enregistrées"@
    } else {
        "Disposition par défaut appliquée"@
    }
}

pub open spec fn spec_key_s4(i: int) -> Seq<char> {
    if i == 0 {
        "dashboard.display_mode"@
    } else if i == 1 {
        "dashboard.profile"@
    } else if i == 2 {
        "dashboard.save_profile"@
    } else if i == 3 {
        "dashboard.delete_profile"@
    } else if i == 4 {
        "dashboard.profile_saved"@
    } else if i == 5 {
        "dashboard.profile_deleted"@
    } else if i == 6 {
        "dashboard.expand_to_edit"@
    } else if i == 7 {
        "dashboard.profile_name_prompt"@
    } else if i == 8 {
        "dashboard.custom_layout"@
    } else if i == 9 {
        "session.no_active"@
    } else if i == 10 {
        "session.start"@
    } else if i == 11 {
        "session.end"@
    } else if i == 12 {
        "session.started"@
    } else if i == 13 {
        "session.start_failed"@
    } else if i == 14 {
        "session.ended"@
    } else if i == 15 {
        "session.end_failed"@
    } else if i == 16 {
        "session.surplus"@
    } else if i == 17 {
        "processes.all"@
    } else if i == 18 {
        "processes.search_placeholder"@
    } else if i == 19 {
        "processes.header.name"@
    } else if i == 20 {
        "processes.header.cpu"@
    } else if i == 21 {
        "processes.header.gpu"@
    } else if i == 22 {
        "processes.header.ram"@
    } else if i == 23 {
        "processes.pinned"@
    } else if i == 24 {
        "processes.unpinned"@
    } else if i == 25 {
        "processes.pin_failed"@
    } else if i == 26 {
        "processes.killed"@
    } else if i == 27 {
        "processes.kill_failed"@
    } else if i == 28 {
        "processes.kill_confirm"@
    } else {
        "settings.baseline"@
    }
}

pub open spec fn spec_value_s4(i: int) -> Seq<char> {
    if i == 0 {
        "Mode d'affichage"@
    } else if i == 1 {
        "Profil"@
    } else if i == 2 {
        "Sauvegarder le profil"@
    } else if i == 3 {
        "Supprimer le profil"@
    } else if i == 4 {
        "Profil sauvegard\u{00E9}"@
    } else if i == 5 {
        "Profil supprim\u{00E9}"@
    } else if i == 6 {
        "Agrandissez la fen\u{00EA}tre pour modifier la disposition"@
    } else if i == 7 {
        "Nom du profil :"@
    } else if i == 8 {
        "-- Personnalis\u{00E9} --"@
    } else if i == 9 {
        "Aucune session active"@
    } else if i == 10 {
        "Démarrer la session"@
    } else if i == 11 {
        "Terminer la session"@
    } else if i == 12 {
        "Session démarrée"@
    } else if i == 13 {
        "Échec du démarrage de la session"@
    } else if i == 14 {
        "Session terminée"@
    } else if i == 15 {
        "Échec de la fin de session"@
    } else if i == 16 {
        "surplus"@
    } else if i == 17 {
        "Tous les processus"@
    } else if i == 18 {
        "Rechercher des processus..."@
    } else if i == 19 {
        "Processus"@
    } else if i == 20 {
        "CPU %"@
    } else if i == 21 {
        "GPU %"@
    } else if i == 22 {
        "RAM %"@
    } else if i == 23 {
        "Épinglé"@
    } else if i == 24 {
        "Désépinglé"@
    } else if i == 25 {
        "Échec de la mise à jour de l'épingle"@
    } else if i == 26 {
        "Processus arrêté"@
    } else if i == 27 {
        "Échec de l'arrêt du processus"@
    } else if i == 28 {
        "Arrêter le processus"@
    } else {
        "Détection de base"@
    }
}

pub open spec fn spec_key_s5(i: int) -> Seq<char> {
    if i == 0 {
        "settings.baseline.auto"@
    } else if i == 1 {
        "settings.baseline.manual"@
    } else if i == 2 {
        "settings.baseline.detected"@
    } else if i == 3 {
        "settings.baseline.detect_now"@
    } else if i == 4 {
        "settings.baseline.detected_value"@
    } else if i == 5 {
        "settings.baseline.not_enough_data"@
    } else if i == 6 {
        "settings.baseline.detect_failed"@
    } else if i == 7 {
        "settings.baseline.set_success"@
    } else if i == 8 {
        "settings.baseline.set_failed"@
    } else if i == 9 {
        "settings.process_limit"@
    } else if i == 10 {
        "settings.refresh_rate_detailed"@
    } else if i == 11 {
        "settings.refresh_rate_critical"@
    } else if i == 12 {
        "history.daily_breakdown"@
    } else if i == 13 {
        "history.date"@
    } else if i == 14 {
        "history.energy"@
    } else if i == 15 {
        "history.cost"@
    } else if i == 16 {
        "history.rate"@
    } else if i == 17 {
        "history.avg"@
    } else if i == 18 {
        "history.peak"@
    } else if i == 19 {
        "history.tab.power"@
    } else if i == 20 {
        "history.tab.sessions"@
    } else if i == 21 {
        "history.no_sessions"@
    } else if i == 22 {
        "tray.show"@
    } else if i == 23 {
        "tray.exit"@
    } else if i == 24 {
        "widget.cpu"@
    } else if i == 25 {
        "widget.gpu"@
    } else if i == 26 {
        "widget.ram"@
    } else if i == 27 {
        "widget.surplus"@
    } else if i == 28 {
        "widget.session_controls"@
    } else {
        "widget.processes"@
    }
}

pub open spec fn spec_value_s5(i: int) -> Seq<char> {
    if i == 0 {
        "Détection automatique"@
    } else if i == 1 {
        "Consommation de base (W)"@
    } else if i == 2 {
        "Base détectée"@
    } else if i == 3 {
        "Détecter maintenant"@
    } else if i == 4 {
        "Base détectée"@
    } else if i == 5 {
        "Pas assez de données pour détecter la base"@
    } else if i == 6 {
        "Échec de la détection"@
    } else if i == 7 {
        "Base définie à"@
    } else if i == 8 {
        "Échec de la définition de la base"@
    } else if i == 9 {
        "Limite de processus"@
    } else if i == 10 {
        "Fréquence (Détaillée)"@
    } else if i == 11 {
        "Fréquence (Critique)"@
    } else if i == 12 {
        "D\u{00E9}tail journalier"@
    } else if i == 13 {
        "Date"@
    } else if i == 14 {
        "\u{00C9}nergie"@
    } else if i == 15 {
        "Co\u{00FB}t"@
    } else if i == 16 {
        "Tarif"@
    } else if i == 17 {
        "Moy."@
    } else if i == 18 {
        "Max"@
    } else if i == 19 {
        "Puissance"@
    } else if i == 20 {
        "Sessions"@
    } else if i == 21 {
        "Aucune session enregistr\u{00E9}e"@
    } else if i == 22 {
        "Afficher"@
    } else if i == 23 {
        "Quitter"@
    } else if i == 24 {
        "CPU"@
    } else if i == 25 {
        "GPU"@
    } else if i == 26 {
        "RAM"@
    } else if i == 27 {
        "Surplus"@
    } else if i == 28 {
        "Session"@
    } else {
        "Processus actifs"@
    }
}

pub open spec fn spec_key_s6(i: int) -> Seq<char> {
    if i == 0 {
        "widget.loading"@
    } else if i == 1 {
        "widget.no_gpu"@
    } else if i == 2 {
        "widget.no_process_data"@
    } else if i == 3 {
        "widget.temp"@
    } else if i == 4 {
        "widget.power"@
    } else if i == 5 {
        "widget.usage"@
    } else if i == 6 {
        "widget.cost"@
    } else if i == 7 {
        "widget.baseline"@
    } else if i == 8 {
        "widget.current"@
    } else if i == 9 {
        "widget.set_baseline"@
    } else if i == 10 {
        "widget.update_baseline"@
    } else if i == 11 {
        "widget.start_session_to_track"@
    } else if i == 12 {
        "widget.session_active"@
    } else if i == 13 {
        "widget.show_top"@
    } else if i == 14 {
        "widget.search_processes"@
    } else if i == 15 {
        "widget.pin"@
    } else if i == 16 {
        "widget.unpin"@
    } else if i == 17 {
        "widget.size.small"@
    } else if i == 18 {
        "widget.size.medium"@
    } else if i == 19 {
        "widget.size.large"@
    } else if i == 20 {
        "widget.no_processes_found"@
    } else if i == 21 {
        "widget.hide"@
    } else if i == 22 {
        "widget.display.bar"@
    } else if i == 23 {
        "widget.display.text"@
    } else if i == 24 {
        "widget.display.radial"@
    } else if i == 25 {
        "widget.display.chart"@
    } else if i == 26 {
        "dashboard.display_mode_title"@
    } else if i == 27 {
        "dashboard.edit_title"@
    } else if i == 28 {
        "dashboard.hourly_estimate_short"@
    } else {
        "dashboard.daily_estimate_short"@
    }
}

pub open spec fn spec_value_s6(i: int) -> Seq<char> {
    if i == 0 {
        "Chargement..."@
    } else if i == 1 {
        "Aucun GPU d\u{00E9}tect\u{00E9}"@
    } else if i == 2 {
        "Aucune donn\u{00E9}e de processus disponible"@
    } else if i == 3 {
        "Temp"@
    } else if i == 4 {
        "Puissance"@
    } else if i == 5 {
        "Utilisation"@
    } else if i == 6 {
        "Co\u{00FB}t"@
    } else if i == 7 {
        "Base"@
    } else if i == 8 {
        "Actuel"@
    } else if i == 9 {
        "D\u{00E9}finir la base"@
    } else if i == 10 {
        "Mettre \u{00E0} jour la base"@
    } else if i == 11 {
        "D\u{00E9}marrez une session pour suivre le surplus"@
    } else if i == 12 {
        "Session active"@
    } else if i == 13 {
        "Afficher le top"@
    } else if i == 14 {
        "Rechercher des processus"@
    } else if i == 15 {
        "\u{00C9}pingler"@
    } else if i == 16 {
        "D\u{00E9}s\u{00E9}pingler"@
    } else if i == 17 {
        "Petit"@
    } else if i == 18 {
        "Moyen"@
    } else if i == 19 {
        "Grand"@
    } else if i == 20 {
        "Aucun processus trouv\u{00E9}"@
    } else if i == 21 {
        "Masquer le widget"@
    } else if i == 22 {
        "Barre"@
    } else if i == 23 {
        "Texte"@
    } else if i == 24 {
        "Radial"@
    } else if i == 25 {
        "Graphique"@
    } else if i == 26 {
        "Mode d'affichage"@
    } else if i == 27 {
        "Modifier le tableau de bord"@
    } else if i == 28 {
        "Horaire"@
    } else {
        "Journalier"@
    }
}

pub open spec fn spec_key_s7(i: int) -> Seq<char> {
    if i == 0 {
        "dashboard.monthly_estimate_short"@
    } else if i == 1 {
        "dashboard.session_energy_short"@
    } else if i == 2 {
        "dashboard.session_cost_short"@
    } else if i == 3 {
        "dashboard.session_duration_short"@
    } else if i == 4 {
        "dashboard.current_power_short"@
    } else if i == 5 {
        "widget.processes_short"@
    } else if i == 6 {
        "widget.session_controls_short"@
    } else if i == 7 {
        "widget.surplus_short"@
    } else if i == 8 {
        "widget.show_cost"@
    } else if i == 9 {
        "widget.show_energy"@
    } else if i == 10 {
        "widget.fan"@
    } else if i == 11 {
        "widget.clock"@
    } else if i == 12 {
        "widget.mem_clock"@
    } else if i == 13 {
        "widget.swap"@
    } else if i == 14 {
        "widget.speed"@
    } else if i == 15 {
        "session.delete"@
    } else if i == 16 {
        "session.delete_confirm"@
    } else if i == 17 {
        "session.edit_name"@
    } else if i == 18 {
        "session.name_placeholder"@
    } else if i == 19 {
        "session.no_category"@
    } else if i == 20 {
        "session.category"@
    } else if i == 21 {
        "settings.categories"@
    } else if i == 22 {
        "settings.categories.add"@
    } else if i == 23 {
        "settings.categories.delete"@
    } else if i == 24 {
        "settings.categories.name_placeholder"@
    } else if i == 25 {
        "history.usage"@
    } else if i == 26 {
        "history.7_days"@
    } else if i == 27 {
        "history.30_days"@
    } else if i == 28 {
        "history.12_months"@
    } else {
        "history.custom"@
    }
}

pub open spec fn spec_value_s7(i: int) -> Seq<char> {
    if i == 0 {
        "Mensuel"@
    } else if i == 1 {
        "\u{00C9}nergie"@
    } else if i == 2 {
        "Co\u{00FB}t"@
    } else if i == 3 {
        "Dur\u{00E9}e"@
    } else if i == 4 {
        "Puissance"@
    } else if i == 5 {
        "Procs"@
    } else if i == 6 {
        "Session"@
    } else if i == 7 {
        "Surplus"@
    } else if i == 8 {
        "Co\u{00FB}t"@
    } else if i == 9 {
        "\u{00C9}nergie"@
    } else if i == 10 {
        "Ventilateur"@
    } else if i == 11 {
        "Horloge"@
    } else if i == 12 {
        "Horloge m\u{00E9}m."@
    } else if i == 13 {
        "Swap"@
    } else if i == 14 {
        "Vitesse"@
    } else if i == 15 {
        "Supprimer"@
    } else if i == 16 {
        "Supprimer cette session ?"@
    } else if i == 17 {
        "Modifier le nom"@
    } else if i == 18 {
        "Nom de session..."@
    } else if i == 19 {
        "Aucune cat\u{00E9}gorie"@
    } else if i == 20 {
        "Cat\u{00E9}gorie"@
    } else if i == 21 {
        "Cat\u{00E9}gories de session"@
    } else if i == 22 {
        "Ajouter"@
    } else if i == 23 {
        "Supprimer"@
    } else if i == 24 {
        "Nom de cat\u{00E9}gorie"@
    } else if i == 25 {
        "Utilisation"@
    } else if i == 26 {
        "7 jours"@
    } else if i == 27 {
        "30 jours"@
    } else if i == 28 {
        "12 mois"@
    } else {
        "Personnalis\u{00E9}"@
    }
}

pub open spec fn spec_key_s8(i: int) -> Seq<char> {
    if i == 0 {
        "history.apply"@
    } else {
        "history.hours"@
    }
}

pub open spec fn spec_value_s8(i: int) -> Seq<char> {
    if i == 0 {
        "Appliquer"@
    } else {
        "heures"@
    }
}

fn pairs_s0() -> (r: Vec<(String, String)>)
    ensures
        r@.len() == 30,
        forall|i: int|
            0 <= i < 30 ==> (#[trigger] r@[i]).0@ == spec_key_s0(i) && r@[i].1@
                == spec_value_s0(i),
{
    let mut t: Vec<(String, String)> = Vec::new();
    t.push((String::from_str("app.title"), String::from_str("PowerCost Tracker")));
    t.push((String::from_str("app.version"), String::from_str("Version")));
    t.push((String::from_str("nav.dashboard"), String::from_str("Tableau de bord")));
    t.push((String::from_str("nav.history"), String::from_str("Historique")));
    t.push((String::from_str("nav.settings"), String::from_str("Param\u{00E8}tres")));
    t.push((String::from_str("nav.about"), String::from_str("\u{00C0} propos")));
    t.push((String::from_str("dashboard.current_power"), String::from_str("Puissance actuelle")));
    t.push((String::from_str("dashboard.session_energy"), String::from_str("\u{00C9}nergie de session")));
    t.push((String::from_str("dashboard.session_cost"), String::from_str("Co\u{00FB}t de session")));
    t.push((String::from_str("dashboard.hourly_estimate"), String::from_str("Estimation horaire")));
    t.push((String::from_str("dashboard.daily_estimate"), String::from_str("Estimation journali\u{00E8}re")));
    t.push((String::from_str("dashboard.monthly_estimate"), String::from_str("Estimation mensuelle")));
    t.push((String::from_str("dashboard.session_duration"), String::from_str("Dur\u{00E9}e de session")));
    t.push((String::from_str("dashboard.power_source"), String::from_str("Source de mesure")));
    t.push((String::from_str("dashboard.estimated"), String::from_str("Estim\u{00E9}")));
    t.push((String::from_str("dashboard.measured"), String::from_str("Mesur\u{00E9}")));
    t.push((String::from_str("unit.watts"), String::from_str("W")));
    t.push((String::from_str("unit.kilowatts"), String::from_str("kW")));
    t.push((String::from_str("unit.watt_hours"), String::from_str("Wh")));
    t.push((String::from_str("unit.kilowatt_hours"), String::from_str("kWh")));
    t.push((String::from_str("unit.per_hour"), String::from_str("/heure")));
    t.push((String::from_str("unit.per_day"), String::from_str("/jour")));
    t.push((String::from_str("unit.per_month"), String::from_str("/mois")));
    t.push((String::from_str("settings.general"), String::from_str("G\u{00E9}n\u{00E9}ral")));
    t.push((String::from_str("settings.language"), String::from_str("Langue")));
    t.push((String::from_str("settings.language.auto"), String::from_str("D\u{00E9}tection automatique")));
    t.push((String::from_str("settings.theme"), String::from_str("Th\u{00E8}me")));
    t.push((String::from_str("settings.theme.dark"), String::from_str("Sombre")));
    t.push((String::from_str("settings.theme.light"), String::from_str("Clair")));
    t.push((String::from_str("settings.theme.system"), String::from_str("Syst\u{00E8}me")));
    t
}

fn pairs_s1() -> (r: Vec<(String, String)>)
    ensures
        r@.len() == 30,
        forall|i: int|
            0 <= i < 30 ==> (#[trigger] r@[i]).0@ == spec_key_s1(i) && r@[i].1@
                == spec_value_s1(i),
{
    let mut t: Vec<(String, String)> = Vec::new();
    t.push((String::from_str("settings.refresh_rate"), String::from_str("Fr\u{00E9}quence de rafra\u{00EE}chissement")));
    t.push((String::from_str("settings.eco_mode"), String::from_str("Mode \u{00E9}co")));
    t.push((String::from_str("settings.eco_mode.description"), String::from_str("R\u{00E9}duire la fr\u{00E9}quence quand minimis\u{00E9}")));
    t.push((String::from_str("settings.start_minimized"), String::from_str("D\u{00E9}marrer minimis\u{00E9}")));
    t.push((String::from_str("settings.start_with_system"), String::from_str("D\u{00E9}marrer avec le syst\u{00E8}me")));
    t.push((String::from_str("settings.remember_window_position"), String::from_str("M\u{00E9}moriser la position et la taille de la fen\u{00EA}tre")));
    t.push((String::from_str("settings.pricing"), String::from_str("Tarification")));
    t.push((String::from_str("settings.pricing.mode"), String::from_str("Mode de tarification")));
    t.push((String::from_str("settings.pricing.mode.simple"), String::from_str("Simple (tarif unique)")));
    t.push((String::from_str("settings.pricing.mode.peak_offpeak"), String::from_str("Heures pleines/creuses")));
    t.push((String::from_str("settings.pricing.mode.seasonal"), String::from_str("Saisonnier")));
    t.push((String::from_str("settings.pricing.mode.tempo"), String::from_str("Tempo (style EDF)")));
    t.push((String::from_str("settings.pricing.currency"), String::from_str("Devise")));
    t.push((String::from_str("settings.pricing.rate"), String::from_str("Tarif au kWh")));
    t.push((String::from_str("settings.pricing.peak_rate"), String::from_str("Tarif heures pleines")));
    t.push((String::from_str("settings.pricing.offpeak_rate"), String::from_str("Tarif heures creuses")));
    t.push((String::from_str("settings.pricing.offpeak_start"), String::from_str("D\u{00E9}but heures creuses")));
    t.push((String::from_str("settings.pricing.offpeak_end"), String::from_str("Fin heures creuses")));
    t.push((String::from_str("settings.pricing.summer_rate"), String::from_str("Tarif \u{00E9}t\u{00E9}")));
    t.push((String::from_str("settings.pricing.winter_rate"), String::from_str("Tarif hiver")));
    t.push((String::from_str("settings.pricing.not_configured"), String::from_str("Tarification non configur\u{00E9}e")));
    t.push((String::from_str("settings.pricing.configure_hint"), String::from_str("Configurez la tarification pour voir les estimations de co\u{00FB}t")));
    t.push((String::from_str("settings.widget"), String::from_str("Widget")));
    t.push((String::from_str("settings.widget.enabled"), String::from_str("Activer le widget")));
    t.push((String::from_str("settings.widget.show_cost"), String::from_str("Afficher le co\u{00FB}t")));
    t.push((String::from_str("settings.widget.show_power"), String::from_str("Afficher la consommation uniquement")));
    t.push((String::from_str("settings.widget.position"), String::from_str("Position")));
    t.push((String::from_str("settings.widget.position.top_left"), String::from_str("Haut gauche")));
    t.push((String::from_str("settings.widget.position.top_right"), String::from_str("Haut droite")));
    t.push((String::from_str("settings.widget.position.bottom_left"), String::from_str("Bas gauche")));
    t
}

fn pairs_s2() -> (r: Vec<(String, String)>)
    ensures
        r@.len() == 30,
        forall|i: int|
            0 <= i < 30 ==> (#[trigger] r@[i]).0@ == spec_key_s2(i) && r@[i].1@
                == spec_value_s2(i),
{
    let mut t: Vec<(String, String)> = Vec::new();
    t.push((String::from_str("settings.widget.position.bottom_right"), String::from_str("Bas droite")));
    t.push((String::from_str("settings.widget.opacity"), String::from_str("Opacit\u{00E9}")));
    t.push((String::from_str("settings.widget.open"), String::from_str("Ouvrir le widget")));
    t.push((String::from_str("settings.widget.close"), String::from_str("Fermer le widget")));
    t.push((String::from_str("settings.pricing.tempo.blue"), String::from_str("Jours bleus")));
    t.push((String::from_str("settings.pricing.tempo.white"), String::from_str("Jours blancs")));
    t.push((String::from_str("settings.pricing.tempo.red"), String::from_str("Jours rouges")));
    t.push((String::from_str("settings.pricing.tempo.peak"), String::from_str("Heures pleines")));
    t.push((String::from_str("settings.pricing.tempo.offpeak"), String::from_str("Heures creuses")));
    t.push((String::from_str("settings.pricing.winter_months"), String::from_str("Mois d'hiver")));
    t.push((String::from_str("settings.saved"), String::from_str("Param\u{00E8}tres enregistr\u{00E9}s avec succ\u{00E8}s")));
    t.push((String::from_str("settings.advanced"), String::from_str("Avanc\u{00E9}")));
    t.push((String::from_str("settings.advanced.baseline"), String::from_str("Consommation de base")));
    t.push((String::from_str("settings.advanced.baseline.auto"), String::from_str("D\u{00E9}tection automatique")));
    t.push((String::from_str("settings.advanced.baseline.manual"), String::from_str("Manuel")));
    t.push((String::from_str("settings.advanced.baseline.description"), String::from_str("Consommation de base pour le suivi du surplus")));
    t.push((String::from_str("history.title"), String::from_str("Historique de consommation")));
    t.push((String::from_str("history.today"), String::from_str("Aujourd'hui")));
    t.push((String::from_str("history.this_week"), String::from_str("Cette semaine")));
    t.push((String::from_str("history.this_month"), String::from_str("Ce mois")));
    t.push((String::from_str("history.custom_range"), String::from_str("P\u{00E9}riode personnalis\u{00E9}e")));
    t.push((String::from_str("history.total_consumption"), String::from_str("Consommation totale")));
    t.push((String::from_str("history.total_cost"), String::from_str("Co\u{00FB}t total")));
    t.push((String::from_str("history.average_power"), String::from_str("Puissance moyenne")));
    t.push((String::from_str("history.peak_power"), String::from_str("Puissance maximale")));
    t.push((String::from_str("history.no_data"), String::from_str("Aucune donn\u{00E9}e disponible pour cette p\u{00E9}riode")));
    t.push((String::from_str("about.title"), String::from_str("\u{00C0} propos de PowerCost Tracker")));
    t.push((String::from_str("about.description"), String::from_str("Une application de bureau l\u{00E9}g\u{00E8}re pour surveiller la consommation \u{00E9}lectrique du PC et calculer les co\u{00FB}ts d'\u{00E9}lectricit\u{00E9} en temps r\u{00E9}el.")));
    t.push((String::from_str("about.license"), String::from_str("Licence : MIT")));
    t.push((String::from_str("about.source"), String::from_str("Code source")));
    t
}

fn pairs_s3() -> (r: Vec<(String, String)>)
    ensures
        r@.len() == 30,
        forall|i: int|
            0 <= i < 30 ==> (#[trigger] r@[i]).0@ == spec_key_s3(i) && r@[i].1@
                == spec_value_s3(i),
{
    let mut t: Vec<(String, String)> = Vec::new();
    t.push((String::from_str("error.hardware_not_detected"), String::from_str("Mat\u{00E9}riel de mesure non d\u{00E9}tect\u{00E9}")));
    t.push((String::from_str("error.using_estimation"), String::from_str("Utilisation du mode estimation")));
    t.push((String::from_str("error.permission_denied"), String::from_str("Permission refus\u{00E9}e")));
    t.push((String::from_str("error.save_failed"), String::from_str("\u{00C9}chec de l'enregistrement")));
    t.push((String::from_str("warning.estimated_values"), String::from_str("Les valeurs de puissance sont estim\u{00E9}es (aucun capteur direct d\u{00E9}tect\u{00E9})")));
    t.push((String::from_str("action.save"), String::from_str("Enregistrer")));
    t.push((String::from_str("action.cancel"), String::from_str("Annuler")));
    t.push((String::from_str("action.reset"), String::from_str("R\u{00E9}initialiser")));
    t.push((String::from_str("action.close"), String::from_str("Fermer")));
    t.push((String::from_str("action.minimize"), String::from_str("Minimiser")));
    t.push((String::from_str("action.quit"), String::from_str("Quitter")));
    t.push((String::from_str("time.hours"), String::from_str("heures")));
    t.push((String::from_str("time.minutes"), String::from_str("minutes")));
    t.push((String::from_str("time.seconds"), String::from_str("secondes")));
    t.push((String::from_str("dashboard.mode.normal"), String::from_str("Normal")));
    t.push((String::from_str("dashboard.mode.minimal"), String::from_str("Minimal")));
    t.push((String::from_str("dashboard.edit_mode"), String::from_str("Mode édition")));
    t.push((String::from_str("dashboard.default_layout"), String::from_str("Disposition par défaut")));
    t.push((String::from_str("dashboard.toggle_widgets"), String::from_str("Paramètres des widgets")));
    t.push((String::from_str("dashboard.done"), String::from_str("Terminé")));
    t.push((String::from_str("dashboard.toggle_visibility"), String::from_str("Visibilité des widgets")));
    t.push((String::from_str("dashboard.edit"), String::from_str("Modifier le tableau de bord")));
    t.push((String::from_str("dashboard.edit_hint"), String::from_str("Activez/désactivez les widgets et glissez pour réorganiser")));
    t.push((String::from_str("dashboard.reset_default"), String::from_str("Réinitialiser")));
    t.push((String::from_str("dashboard.saved"), String::from_str("Tableau de bord enregistré")));
    t.push((String::from_str("dashboard.save_failed"), String::from_str("Échec de l'enregistrement")));
    t.push((String::from_str("dashboard.reset_success"), String::from_str("Tableau de bord réinitialisé")));
    t.push((String::from_str("dashboard.edit_activated"), String::from_str("Mode édition activé")));
    t.push((String::from_str("dashboard.changes_saved"), String::from_str("Modifications enregistrées")));
    t.push((String::from_str("dashboard.default_applied"), String::from_str("Disposition par défaut appliquée")));
    t
}

fn pairs_s4() -> (r: Vec<(String, String)>)
    ensures
        r@.len() == 30,
        forall|i: int|
            0 <= i < 30 ==> (#[trigger] r@[i]).0@ == spec_key_s4(i) && r@[i].1@
                == spec_value_s4(i),
{
    let mut t: Vec<(String, String)> = Vec::new();
    t.push((String::from_str("dashboard.display_mode"), String::from_str("Mode d'affichage")));
    t.push((String::from_str("dashboard.profile"), String::from_str("Profil")));
    t.push((String::from_str("dashboard.save_profile"), String::from_str("Sauvegarder le profil")));
    t.push((String::from_str("dashboard.delete_profile"), String::from_str("Supprimer le profil")));
    t.push((String::from_str("dashboard.profile_saved"), String::from_str("Profil sauvegard\u{00E9}")));
    t.push((String::from_str("dashboard.profile_deleted"), String::from_str("Profil supprim\u{00E9}")));
    t.push((String::from_str("dashboard.expand_to_edit"), String::from_str("Agrandissez la fen\u{00EA}tre pour modifier la disposition")));
    t.push((String::from_str("dashboard.profile_name_prompt"), String::from_str("Nom du profil :")));
    t.push((String::from_str("dashboard.custom_layout"), String::from_str("-- Personnalis\u{00E9} --")));
    t.push((String::from_str("session.no_active"), String::from_str("Aucune session active")));
    t.push((String::from_str("session.start"), String::from_str("Démarrer la session")));
    t.push((String::from_str("session.end"), String::from_str("Terminer la session")));
    t.push((String::from_str("session.started"), String::from_str("Session démarrée")));
    t.push((String::from_str("session.start_failed"), String::from_str("Échec du démarrage de la session")));
    t.push((String::from_str("session.ended"), String::from_str("Session terminée")));
    t.push((String::from_str("session.end_failed"), String::from_str("Échec de la fin de session")));
    t.push((String::from_str("session.surplus"), String::from_str("surplus")));
    t.push((String::from_str("processes.all"), String::from_str("Tous les processus")));
    t.push((String::from_str("processes.search_placeholder"), String::from_str("Rechercher des processus...")));
    t.push((String::from_str("processes.header.name"), String::from_str("Processus")));
    t.push((String::from_str("processes.header.cpu"), String::from_str("CPU %")));
    t.push((String::from_str("processes.header.gpu"), String::from_str("GPU %")));
    t.push((String::from_str("processes.header.ram"), String::from_str("RAM %")));
    t.push((String::from_str("processes.pinned"), String::from_str("Épinglé")));
    t.push((String::from_str("processes.unpinned"), String::from_str("Désépinglé")));
    t.push((String::from_str("processes.pin_failed"), String::from_str("Échec de la mise à jour de l'épingle")));
    t.push((String::from_str("processes.killed"), String::from_str("Processus arrêté")));
    t.push((String::from_str("processes.kill_failed"), String::from_str("Échec de l'arrêt du processus")));
    t.push((String::from_str("processes.kill_confirm"), String::from_str("Arrêter le processus")));
    t.push((String::from_str("settings.baseline"), String::from_str("Détection de base")));
    t
}

fn pairs_s5() -> (r: Vec<(String, String)>)
    ensures
        r@.len() == 30,
        forall|i: int|
            0 <= i < 30 ==> (#[trigger] r@[i]).0@ == spec_key_s5(i) && r@[i].1@
                == spec_value_s5(i),
{
    let mut t: Vec<(String, String)> = Vec::new();
    t.push((String::from_str("settings.baseline.auto"), String::from_str("Détection automatique")));
    t.push((String::from_str("settings.baseline.manual"), String::from_str("Consommation de base (W)")));
    t.push((String::from_str("settings.baseline.detected"), String::from_str("Base détectée")));
    t.push((String::from_str("settings.baseline.detect_now"), String::from_str("Détecter maintenant")));
    t.push((String::from_str("settings.baseline.detected_value"), String::from_str("Base détectée")));
    t.push((String::from_str("settings.baseline.not_enough_data"), String::from_str("Pas assez de données pour détecter la base")));
    t.push((String::from_str("settings.baseline.detect_failed"), String::from_str("Échec de la détection")));
    t.push((String::from_str("settings.baseline.set_success"), String::from_str("Base définie à")));
    t.push((String::from_str("settings.baseline.set_failed"), String::from_str("Échec de la définition de la base")));
    t.push((String::from_str("settings.process_limit"), String::from_str("Limite de processus")));
    t.push((String::from_str("settings.refresh_rate_detailed"), String::from_str("Fréquence (Détaillée)")));
    t.push((String::from_str("settings.refresh_rate_critical"), String::from_str("Fréquence (Critique)")));
    t.push((String::from_str("history.daily_breakdown"), String::from_str("D\u{00E9}tail journalier")));
    t.push((String::from_str("history.date"), String::from_str("Date")));
    t.push((String::from_str("history.energy"), String::from_str("\u{00C9}nergie")));
    t.push((String::from_str("history.cost"), String::from_str("Co\u{00FB}t")));
    t.push((String::from_str("history.rate"), String::from_str("Tarif")));
    t.push((String::from_str("history.avg"), String::from_str("Moy.")));
    t.push((String::from_str("history.peak"), String::from_str("Max")));
    t.push((String::from_str("history.tab.power"), String::from_str("Puissance")));
    t.push((String::from_str("history.tab.sessions"), String::from_str("Sessions")));
    t.push((String::from_str("history.no_sessions"), String::from_str("Aucune session enregistr\u{00E9}e")));
    t.push((String::from_str("tray.show"), String::from_str("Afficher")));
    t.push((String::from_str("tray.exit"), String::from_str("Quitter")));
    t.push((String::from_str("widget.cpu"), String::from_str("CPU")));
    t.push((String::from_str("widget.gpu"), String::from_str("GPU")));
    t.push((String::from_str("widget.ram"), String::from_str("RAM")));
    t.push((String::from_str("widget.surplus"), String::from_str("Surplus")));
    t.push((String::from_str("widget.session_controls"), String::from_str("Session")));
    t.push((String::from_str("widget.processes"), String::from_str("Processus actifs")));
    t
}

fn pairs_s6() -> (r: Vec<(String, String)>)
    ensures
        r@.len() == 30,
        forall|i: int|
            0 <= i < 30 ==> (#[trigger] r@[i]).0@ == spec_key_s6(i) && r@[i].1@
                == spec_value_s6(i),
{
    let mut t: Vec<(String, String)> = Vec::new();
    t.push((String::from_str("widget.loading"), String::from_str("Chargement...")));
    t.push((String::from_str("widget.no_gpu"), String::from_str("Aucun GPU d\u{00E9}tect\u{00E9}")));
    t.push((String::from_str("widget.no_process_data"), String::from_str("Aucune donn\u{00E9}e de processus disponible")));
    t.push((String::from_str("widget.temp"), String::from_str("Temp")));
    t.push((String::from_str("widget.power"), String::from_str("Puissance")));
    t.push((String::from_str("widget.usage"), String::from_str("Utilisation")));
    t.push((String::from_str("widget.cost"), String::from_str("Co\u{00FB}t")));
    t.push((String::from_str("widget.baseline"), String::from_str("Base")));
    t.push((String::from_str("widget.current"), String::from_str("Actuel")));
    t.push((String::from_str("widget.set_baseline"), String::from_str("D\u{00E9}finir la base")));
    t.push((String::from_str("widget.update_baseline"), String::from_str("Mettre \u{00E0} jour la base")));
    t.push((String::from_str("widget.start_session_to_track"), String::from_str("D\u{00E9}marrez une session pour suivre le surplus")));
    t.push((String::from_str("widget.session_active"), String::from_str("Session active")));
    t.push((String::from_str("widget.show_top"), String::from_str("Afficher le top")));
    t.push((String::from_str("widget.search_processes"), String::from_str("Rechercher des processus")));
    t.push((String::from_str("widget.pin"), String::from_str("\u{00C9}pingler")));
    t.push((String::from_str("widget.unpin"), String::from_str("D\u{00E9}s\u{00E9}pingler")));
    t.push((String::from_str("widget.size.small"), String::from_str("Petit")));
    t.push((String::from_str("widget.size.medium"), String::from_str("Moyen")));
    t.push((String::from_str("widget.size.large"), String::from_str("Grand")));
    t.push((String::from_str("widget.no_processes_found"), String::from_str("Aucun processus trouv\u{00E9}")));
    t.push((String::from_str("widget.hide"), String::from_str("Masquer le widget")));
    t.push((String::from_str("widget.display.bar"), String::from_str("Barre")));
    t.push((String::from_str("widget.display.text"), String::from_str("Texte")));
    t.push((String::from_str("widget.display.radial"), String::from_str("Radial")));
    t.push((String::from_str("widget.display.chart"), String::from_str("Graphique")));
    t.push((String::from_str("dashboard.display_mode_title"), String::from_str("Mode d'affichage")));
    t.push((String::from_str("dashboard.edit_title"), String::from_str("Modifier le tableau de bord")));
    t.push((String::from_str("dashboard.hourly_estimate_short"), String::from_str("Horaire")));
    t.push((String::from_str("dashboard.daily_estimate_short"), String::from_str("Journalier")));
    t
}

fn pairs_s7() -> (r: Vec<(String, String)>)
    ensures
        r@.len() == 30,
        forall|i: int|
            0 <= i < 30 ==> (#[trigger] r@[i]).0@ == spec_key_s7(i) && r@[i].1@
                == spec_value_s7(i),
{
    let mut t: Vec<(String, String)> = Vec::new();
    t.push((String::from_str("dashboard.monthly_estimate_short"), String::from_str("Mensuel")));
    t.push((String::from_str("dashboard.session_energy_short"), String::from_str("\u{00C9}nergie")));
    t.push((String::from_str("dashboard.session_cost_short"), String::from_str("Co\u{00FB}t")));
    t.push((String::from_str("dashboard.session_duration_short"), String::from_str("Dur\u{00E9}e")));
    t.push((String::from_str("dashboard.current_power_short"), String::from_str("Puissance")));
    t.push((String::from_str("widget.processes_short"), String::from_str("Procs")));
    t.push((String::from_str("widget.session_controls_short"), String::from_str("Session")));
    t.push((String::from_str("widget.surplus_short"), String::from_str("Surplus")));
    t.push((String::from_str("widget.show_cost"), String::from_str("Co\u{00FB}t")));
    t.push((String::from_str("widget.show_energy"), String::from_str("\u{00C9}nergie")));
    t.push((String::from_str("widget.fan"), String::from_str("Ventilateur")));
    t.push((String::from_str("widget.clock"), String::from_str("Horloge")));
    t.push((String::from_str("widget.mem_clock"), String::from_str("Horloge m\u{00E9}m.")));
    t.push((String::from_str("widget.swap"), String::from_str("Swap")));
    t.push((String::from_str("widget.speed"), String::from_str("Vitesse")));
    t.push((String::from_str("session.delete"), String::from_str("Supprimer")));
    t.push((String::from_str("session.delete_confirm"), String::from_str("Supprimer cette session ?")));
    t.push((String::from_str("session.edit_name"), String::from_str("Modifier le nom")));
    t.push((String::from_str("session.name_placeholder"), String::from_str("Nom de session...")));
    t.push((String::from_str("session.no_category"), String::from_str("Aucune cat\u{00E9}gorie")));
    t.push((String::from_str("session.category"), String::from_str("Cat\u{00E9}gorie")));
    t.push((String::from_str("settings.categories"), String::from_str("Cat\u{00E9}gories de session")));
    t.push((String::from_str("settings.categories.add"), String::from_str("Ajouter")));
    t.push((String::from_str("settings.categories.delete"), String::from_str("Supprimer")));
    t.push((String::from_str("settings.categories.name_placeholder"), String::from_str("Nom de cat\u{00E9}gorie")));
    t.push((String::from_str("history.usage"), String::from_str("Utilisation")));
    t.push((String::from_str("history.7_days"), String::from_str("7 jours")));
    t.push((String::from_str("history.30_days"), String::from_str("30 jours")));
    t.push((String::from_str("history.12_months"), String::from_str("12 mois")));
    t.push((String::from_str("history.custom"), String::from_str("Personnalis\u{00E9}")));
    t
}

fn pairs_s8() -> (r: Vec<(String, String)>)
    ensures
        r@.len() == 2,
        forall|i: int|
            0 <= i < 2 ==> (#[trigger] r@[i]).0@ == spec_key_s8(i) && r@[i].1@
                == spec_value_s8(i),
{
    let mut t: Vec<(String, String)> = Vec::new();
    t.push((String::from_str("history.apply"), String::from_str("Appliquer")));
    t.push((String::from_str("history.hours"), String::from_str("heures")));
    t
}

/// The French key/value pairs, in table order.
#[verifier::rlimit(100)]
pub fn translation_pairs() -> (r: Vec<(String, String)>)
    ensures
        spec_table_matches(r@),
{
    let mut t = pairs_s0();
    let mut s1 = pairs_s1();
    t.append(&mut s1);
    let mut s2 = pairs_s2();
    t.append(&mut s2);
    let mut s3 = pairs_s3();
    t.append(&mut s3);
    let mut s4 = pairs_s4();
    t.append(&mut s4);
    let mut s5 = pairs_s5();
    t.append(&mut s5);
    let mut s6 = pairs_s6();
    t.append(&mut s6);
    let mut s7 = pairs_s7();
    t.append(&mut s7);
    let mut s8 = pairs_s8();
    t.append(&mut s8);
    t
}

/// The French translation table, built from [`translation_pairs`].
///
/// The table's content is carried by the contract of `translation_pairs`;
/// the map itself has no stated contract because map contents over string
/// keys are not modelled here.
pub fn get_translations() -> (r: HashMap<String, String>) {
    let pairs = translation_pairs();
    let mut m: HashMap<String, String> = HashMap::new();
    let mut i: usize = 0;
    while i < pairs.len()
        invariant
            0 <= i <= pairs@.len(),
        decreases pairs@.len() - i,
    {
        let (k, v) = (pairs[i].0.clone(), pairs[i].1.clone());
        m.insert(k, v);
        i = i + 1;
    }
    m
}

} // verus!
