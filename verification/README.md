# QBX

QBX est un petit noyau x86_64 en mode texte : un shell avec historique et redirections, un
système de fichiers en mémoire persisté sur la partition /var d'un disque SATA, un journal d'audit
circulaire, des paliers de privilège protégés par empreinte SHA-256, un éditeur plein écran, un
pilote de carte Intel e1000 et un ordonnanceur coopératif.

- `src/` est la bibliothèque `qbx`, vérifiée par Verus : la logique du noyau (VFS et son format
  sur disque, journal, session, shell, commandes, console VGA, encodages PCI, AHCI et e1000,
  file du clavier, ordonnanceur), avec ses contrats et ses lois.
- `tests/` exerce la bibliothèque sur des valeurs concrètes.
- `app/` est le noyau lui-même : démarrage, pagination et tas, ports d'entrée-sortie, registres
  MMIO et DMA du disque et de la carte réseau, boucle du clavier et décodage des scancodes par
  `pc-keyboard`. Il relève les registres PCI selon le plan de scrutation de la bibliothèque, écrit
  sur /var les secteurs que les opérations du VFS et du journal lui rendent, et confie les
  autres décisions à la bibliothèque.
